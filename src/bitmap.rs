//! Cell-sized pixel buffers and the procedural drawing of block elements,
//! box-drawing lines and line decorations.
use crate::keys::{BlockAlpha, BlockKey, BoxDrawingKey, LineKey, Underline};
use vstd::prelude::*;

verus! {

/// A fully transparent pixel.
pub const CLEAR: u32 = 0;

/// An opaque white pixel.
pub const WHITE: u32 = 0xffff_ffff;

/// The largest width or height of a cell, in pixels.
pub const MAX_CELL_SIDE: usize = 0x10000;

/// A pixel packed from its red, green, blue and alpha bytes, red lowest.
pub open spec fn pack(r: u8, g: u8, b: u8, a: u8) -> int {
    r as int + 256 * (g as int) + 65536 * (b as int) + 16777216 * (a as int)
}

/// The pixel whose four channels all hold `v`.
pub open spec fn gray(v: u8) -> u32 {
    (v as int * 0x0101_0101) as u32
}

/// A raster image: `rows[y][x]` is the pixel at column `x` of row `y`.
#[derive(Debug, Clone)]
pub struct Image {
    pub width: usize,
    pub height: usize,
    pub rows: Vec<Vec<u32>>,
}

impl Image {
    pub open spec fn wf(&self) -> bool {
        &&& self.rows@.len() == self.height
        &&& forall|y: int| 0 <= y < self.height ==> #[trigger] self.rows@[y]@.len() == self.width
    }

    pub open spec fn pixel(&self, x: int, y: int) -> u32 {
        self.rows@[y]@[x]
    }

    /// A transparent image of the given size.
    pub fn new(width: usize, height: usize) -> (r: Image)
        ensures
            r.wf(),
            r.width == width,
            r.height == height,
            forall|x: int, y: int| 0 <= x < width && 0 <= y < height ==> r.pixel(x, y) == CLEAR,
    {
        let mut rows: Vec<Vec<u32>> = Vec::new();
        let mut y: usize = 0;
        while y < height
            invariant
                y <= height,
                rows@.len() == y,
                forall|j: int| 0 <= j < y ==> #[trigger] rows@[j]@ == Seq::new(width as nat, |i: int| CLEAR),
            decreases height - y,
        {
            let row = vec_filled(width, CLEAR);
            rows.push(row);
            y = y + 1;
        }
        Image { width, height, rows }
    }

    /// An image of `width` by `height` pixels from RGBA bytes, four per
    /// pixel, row by row; `None` where the byte count does not match.
    pub fn from_rgba(width: usize, height: usize, bytes: &Vec<u8>) -> (r: Option<Image>)
        ensures
            r is Some <==> bytes@.len() == 4 * width * height,
            r matches Some(img) ==> {
                &&& img.wf()
                &&& img.width == width
                &&& img.height == height
                &&& forall|x: int, y: int|
                    0 <= x < width && 0 <= y < height ==> img.pixel(x, y) as int == pack(
                        bytes@[4 * (y * width + x)],
                        bytes@[4 * (y * width + x) + 1],
                        bytes@[4 * (y * width + x) + 2],
                        bytes@[4 * (y * width + x) + 3],
                    )
            },
    {
        proof {
            if width == 0 || height == 0 {
                assert(4 * width * height == 0) by (nonlinear_arith)
                    requires width == 0 || height == 0;
            }
        }
        if width == 0 || height == 0 {
            if bytes.len() != 0 {
                return None;
            }
            return Some(Image::new(width, height));
        }
        let n = bytes.len() / 4;
        if bytes.len() % 4 != 0 || n % width != 0 || n / width != height {
            proof {
                if bytes@.len() == 4 * width * height {
                    lemma_div_exact(bytes@.len() as int, width as int, height as int);
                }
            }
            return None;
        }
        proof {
            lemma_exact_size(bytes@.len() as int, width as int, height as int);
        }
        let total = bytes.len();
        let mut rows: Vec<Vec<u32>> = Vec::new();
        let mut y: usize = 0;
        while y < height
            invariant
                y <= height,
                bytes@.len() == total,
                bytes@.len() == 4 * width * height,
                width > 0,
                rows@.len() == y,
                forall|j: int| 0 <= j < y ==> #[trigger] rows@[j]@.len() == width,
                forall|x: int, j: int|
                    0 <= x < width && 0 <= j < y ==> rows@[j]@[x] as int == pack(
                        bytes@[4 * (j * width + x)],
                        bytes@[4 * (j * width + x) + 1],
                        bytes@[4 * (j * width + x) + 2],
                        bytes@[4 * (j * width + x) + 3],
                    ),
            decreases height - y,
        {
            let mut row: Vec<u32> = Vec::new();
            let mut x: usize = 0;
            while x < width
                invariant
                    y < height,
                    x <= width,
                    width > 0,
                    bytes@.len() == total,
                    bytes@.len() == 4 * width * height,
                    row@.len() == x,
                    forall|i: int| 0 <= i < x ==> #[trigger] row@[i] as int == pack(
                        bytes@[4 * (y * width + i)],
                        bytes@[4 * (y * width + i) + 1],
                        bytes@[4 * (y * width + i) + 2],
                        bytes@[4 * (y * width + i) + 3],
                    ),
                decreases width - x,
            {
                proof {
                    lemma_index_fits(x as int, y as int, width as int, height as int);
                    assert(bytes@.len() == total);
                    assert(y * width <= y * width + x);
                }
                let base = 4 * (y * width + x);
                let p = (bytes[base] as u32) + 256 * (bytes[base + 1] as u32) + 65536 * (
                bytes[base + 2] as u32) + 16777216 * (bytes[base + 3] as u32);
                row.push(p);
                x = x + 1;
            }
            rows.push(row);
            y = y + 1;
        }
        Some(Image { width, height, rows })
    }
}

pub(crate) proof fn lemma_div_exact(len: int, w: int, h: int)
    requires
        w > 0,
        h > 0,
        len == 4 * w * h,
    ensures
        len % 4 == 0,
        (len / 4) % w == 0,
        (len / 4) / w == h,
{
    assert(len == (w * h) * 4) by (nonlinear_arith)
        requires len == 4 * w * h;
    vstd::arithmetic::div_mod::lemma_div_multiples_vanish(w * h, 4);
    vstd::arithmetic::div_mod::lemma_mod_multiples_basic(w * h, 4);
    assert(w * h == h * w) by (nonlinear_arith);
    vstd::arithmetic::div_mod::lemma_div_multiples_vanish(h, w);
    vstd::arithmetic::div_mod::lemma_mod_multiples_basic(h, w);
}

pub(crate) proof fn lemma_exact_size(len: int, w: int, h: int)
    requires
        w > 0,
        h > 0,
        len >= 0,
        len % 4 == 0,
        (len / 4) % w == 0,
        (len / 4) / w == h,
    ensures
        len == 4 * w * h,
{
    vstd::arithmetic::div_mod::lemma_fundamental_div_mod(len, 4);
    let q = len / 4;
    vstd::arithmetic::div_mod::lemma_fundamental_div_mod(q, w);
    assert(len == 4 * w * h) by (nonlinear_arith)
        requires len == 4 * q + 0, q == w * h + 0;
}

proof fn lemma_index_fits(x: int, y: int, w: int, h: int)
    requires
        0 <= x < w,
        0 <= y < h,
    ensures
        4 * (y * w + x) + 3 < 4 * w * h,
        0 <= y * w + x,
{
    assert(y * w + x < w * h) by (nonlinear_arith)
        requires 0 <= x < w, 0 <= y < h;
    assert(0 <= y * w) by (nonlinear_arith)
        requires 0 <= y, 0 <= w;
    assert(4 * w * h == 4 * (w * h)) by (nonlinear_arith);
}

fn vec_filled(n: usize, v: u32) -> (r: Vec<u32>)
    ensures
        r@ == Seq::new(n as nat, |i: int| v),
{
    let mut r: Vec<u32> = Vec::new();
    let mut i: usize = 0;
    while i < n
        invariant
            i <= n,
            r@ == Seq::new(i as nat, |k: int| v),
        decreases n - i,
    {
        r.push(v);
        i = i + 1;
        assert(r@ =~= Seq::new(i as nat, |k: int| v));
    }
    r
}


/// The cell geometry that the procedural glyphs are drawn in, in pixels.
#[derive(Debug, Clone, Copy, PartialEq, Eq, Structural)]
pub struct RenderMetrics {
    pub cell_width: usize,
    pub cell_height: usize,
    /// Thickness of an underline, and of a light box-drawing stroke.
    pub underline_height: usize,
    /// First row of a single underline.
    pub descender_row: usize,
    /// Second row of a double underline.
    pub descender_plus_two: usize,
    /// First row of a strike-through.
    pub strike_row: usize,
}

impl RenderMetrics {
    /// A cell is at least four pixels wide and one high, and every row or
    /// column named here stays within `MAX_CELL_SIDE`.
    pub open spec fn wf(&self) -> bool {
        &&& 4 <= self.cell_width <= MAX_CELL_SIDE
        &&& 1 <= self.cell_height <= MAX_CELL_SIDE
        &&& self.underline_height <= MAX_CELL_SIDE
        &&& self.descender_row <= MAX_CELL_SIDE
        &&& self.descender_plus_two <= MAX_CELL_SIDE
        &&& self.strike_row <= MAX_CELL_SIDE
    }
}

/// `max(ceil(v / d), 1)`: how many pixels a fraction of a cell covers.
pub open spec fn scaled_span(v: int, d: int) -> int {
    if (v + d - 1) / d <= 0 {
        1
    } else {
        (v + d - 1) / d
    }
}

/// First pixel of the `k`-th eighth band along a side of `len` pixels,
/// counted from the start (top, left) or from the end (bottom, right).
pub open spec fn band_start(len: int, k: int, from_end: bool) -> int {
    if from_end {
        let back = len - (k + 1) * len / 8;
        if back < 0 {
            0
        } else {
            back
        }
    } else {
        k * len / 8
    }
}

pub open spec fn in_band(len: int, k: int, from_end: bool, i: int) -> bool {
    band_start(len, k, from_end) <= i < band_start(len, k, from_end) + scaled_span(len, 8)
}

/// Whether pixel `i` along a side of `len` pixels lies in one of the first
/// `n` eighth bands.
pub open spec fn covered(len: int, n: nat, from_end: bool, i: int) -> bool
    decreases n,
{
    n > 0 && (covered(len, (n - 1) as nat, from_end, i) || in_band(len, n - 1, from_end, i))
}

/// The alpha byte of a full block of the given opacity: 100%, 75%, 50% or
/// 25% of 255, rounded down.
pub open spec fn alpha_level(a: BlockAlpha) -> u8 {
    match a {
        BlockAlpha::Full => 255,
        BlockAlpha::Dark => 191,
        BlockAlpha::Medium => 127,
        BlockAlpha::Light => 63,
    }
}

/// The color byte of a full block of the given opacity: the linear
/// intensity 1, 0.75, 0.5 or 0.25 in sRGB encoding, rounded to the nearest
/// byte.
pub open spec fn shade_level(a: BlockAlpha) -> u8 {
    match a {
        BlockAlpha::Full => 255,
        BlockAlpha::Dark => 225,
        BlockAlpha::Medium => 188,
        BlockAlpha::Light => 137,
    }
}

/// A pixel whose three color channels hold `c` and whose alpha is `a`.
pub open spec fn shade(c: u8, a: u8) -> u32 {
    pack(c, c, c, a) as u32
}

/// Whether pixel (x, y) of a cell lies in one of the chosen quadrants; the
/// cell splits after `max(ceil(side / 2), 1)` pixels on each axis.
pub open spec fn in_quadrants(m: RenderMetrics, q: crate::keys::Quadrant, x: int, y: int) -> bool {
    let hx = scaled_span(m.cell_width as int, 2);
    let hy = scaled_span(m.cell_height as int, 2);
    (q.upper_left && x < hx && y < hy) || (q.upper_right && hx <= x && y < hy) || (q.lower_left
        && x < hx && hy <= y) || (q.lower_right && hx <= x && hy <= y)
}

pub open spec fn white_if(b: bool) -> u32 {
    if b {
        WHITE
    } else {
        CLEAR
    }
}

/// The pixel at (x, y) of a block element drawn in a cell.
pub open spec fn block_pixel(m: RenderMetrics, key: BlockKey, x: int, y: int) -> u32 {
    match key {
        BlockKey::Upper(n) => white_if(covered(m.cell_height as int, n as nat, false, y)),
        BlockKey::Lower(n) => white_if(covered(m.cell_height as int, n as nat, true, y)),
        BlockKey::Left(n) => white_if(covered(m.cell_width as int, n as nat, false, x)),
        BlockKey::Right(n) => white_if(covered(m.cell_width as int, n as nat, true, x)),
        BlockKey::Full(a) => shade(shade_level(a), alpha_level(a)),
        BlockKey::Quadrants(q) => white_if(in_quadrants(m, q, x, y)),
    }
}

/// Stroke thickness of a box-drawing line: the underline thickness, twice
/// that for a heavy line.
pub open spec fn stroke(m: RenderMetrics, key: BoxDrawingKey) -> int {
    match key {
        BoxDrawingKey::LightHorizontal | BoxDrawingKey::LightVertical => m.underline_height as int,
        _ => 2 * m.underline_height,
    }
}

/// Whether `i` lies in the band of `thickness` pixels centered on
/// `center`, which starts `thickness / 2` pixels before it.
pub open spec fn around(center: int, thickness: int, i: int) -> bool {
    center - thickness / 2 <= i < center - thickness / 2 + thickness
}

/// The pixel at (x, y) of a box-drawing line through the cell's center.
pub open spec fn box_pixel(m: RenderMetrics, key: BoxDrawingKey, x: int, y: int) -> u32 {
    let t = stroke(m, key);
    match key {
        BoxDrawingKey::LightHorizontal | BoxDrawingKey::HeavyHorizontal => white_if(
            around(m.cell_height as int / 2, t, y),
        ),
        _ => white_if(around(m.cell_width as int / 2, t, x)),
    }
}

/// Whether row `y` is one of `thickness` rows starting at `first`.
pub open spec fn in_stripe(first: int, thickness: int, y: int) -> bool {
    first <= y < first + thickness
}

/// First row of the upper stripe of a double underline.
pub open spec fn double_first_row(m: RenderMetrics) -> int {
    let lifted = m.descender_plus_two - 2 * m.underline_height;
    if m.descender_row < lifted {
        m.descender_row as int
    } else {
        lifted
    }
}

/// Run length of a dotted underline, and of a dashed one.
pub open spec fn run_length(m: RenderMetrics, u: Underline) -> int {
    if u == Underline::Dotted {
        m.cell_width as int / 4
    } else {
        m.cell_width as int / 3 + 1
    }
}

/// What the underline of style `u` puts at (x, y), if anything: solid
/// styles only set pixels, dotted and dashed ones also clear the gaps of
/// their rows. A curly underline is a wave added afterwards.
pub open spec fn underline_pixel(m: RenderMetrics, u: Underline, x: int, y: int) -> Option<u32> {
    let t = m.underline_height as int;
    match u {
        Underline::Single => if in_stripe(m.descender_row as int, t, y) {
            Some(WHITE)
        } else {
            None
        },
        Underline::Double => if in_stripe(double_first_row(m), t, y) || in_stripe(
            m.descender_plus_two as int,
            t,
            y,
        ) {
            Some(WHITE)
        } else {
            None
        },
        Underline::Dotted | Underline::Dashed => if in_stripe(m.descender_row as int, t, y) {
            Some(white_if((x / run_length(m, u)) % 2 == 0))
        } else {
            None
        },
        _ => None,
    }
}

/// The pixel at (x, y) of a line-decoration cell: the overline is drawn
/// first, then the underline, then the strike-through.
pub open spec fn line_pixel(m: RenderMetrics, key: LineKey, x: int, y: int) -> u32 {
    let t = m.underline_height as int;
    if key.strike_through && in_stripe(m.strike_row as int, t, y) {
        WHITE
    } else if let Some(p) = underline_pixel(m, key.underline, x, y) {
        p
    } else {
        white_if(key.overline && y < t)
    }
}

/// Whether `img` is a cell-sized image whose every pixel is `f(x, y)`.
pub open spec fn draws(img: Image, m: RenderMetrics, f: spec_fn(int, int) -> u32) -> bool {
    &&& img.wf()
    &&& img.width == m.cell_width
    &&& img.height == m.cell_height
    &&& forall|x: int, y: int|
        0 <= x < m.cell_width && 0 <= y < m.cell_height ==> #[trigger] img.pixel(x, y) == f(x, y)
}

/// How the pixels of one image are decided.
enum Painter {
    /// Rows (or columns, when `by_column`) marked in `mask` are white.
    Mask { mask: Vec<bool>, by_column: bool },
    Fill(u32),
    Quads(crate::keys::Quadrant),
    BoxLine(BoxDrawingKey),
    Line(LineKey),
}

impl Painter {
    spec fn color(&self, m: RenderMetrics, x: int, y: int) -> u32 {
        match self {
            Painter::Mask { mask, by_column } => white_if(
                if *by_column {
                    mask@[x]
                } else {
                    mask@[y]
                },
            ),
            Painter::Fill(p) => *p,
            Painter::Quads(q) => white_if(in_quadrants(m, *q, x, y)),
            Painter::BoxLine(k) => box_pixel(m, *k, x, y),
            Painter::Line(k) => line_pixel(m, *k, x, y),
        }
    }

    spec fn fits(&self, m: RenderMetrics) -> bool {
        match self {
            Painter::Mask { mask, by_column } => mask@.len() == if *by_column {
                m.cell_width
            } else {
                m.cell_height
            },
            _ => true,
        }
    }

    fn color_at(&self, m: &RenderMetrics, x: usize, y: usize) -> (r: u32)
        requires
            m.wf(),
            self.fits(*m),
            x < m.cell_width,
            y < m.cell_height,
        ensures
            r == self.color(*m, x as int, y as int),
    {
        match self {
            Painter::Mask { mask, by_column } => {
                let on = if *by_column {
                    mask[x]
                } else {
                    mask[y]
                };
                if on {
                    WHITE
                } else {
                    CLEAR
                }
            },
            Painter::Fill(p) => *p,
            Painter::Quads(q) => {
                let hx = span_exec(m.cell_width as u64, 2) as usize;
                let hy = span_exec(m.cell_height as u64, 2) as usize;
                let on = (q.upper_left && x < hx && y < hy) || (q.upper_right && hx <= x && y < hy)
                    || (q.lower_left && x < hx && hy <= y) || (q.lower_right && hx <= x && hy
                    <= y);
                if on {
                    WHITE
                } else {
                    CLEAR
                }
            },
            Painter::BoxLine(k) => box_color(m, *k, x, y),
            Painter::Line(k) => line_color(m, *k, x, y),
        }
    }
}

/// `max(ceil(v / d), 1)` on machine integers.
fn span_exec(v: u64, d: u64) -> (r: u64)
    requires
        v <= 0x1_0000_0000,
        1 <= d <= 8,
    ensures
        r == scaled_span(v as int, d as int),
        1 <= r,
{
    let c = (v + d - 1) / d;
    if c == 0 {
        1
    } else {
        c
    }
}

fn box_color(m: &RenderMetrics, key: BoxDrawingKey, x: usize, y: usize) -> (r: u32)
    requires
        m.wf(),
        x < m.cell_width,
        y < m.cell_height,
    ensures
        r == box_pixel(*m, key, x as int, y as int),
{
    let t: usize = match key {
        BoxDrawingKey::LightHorizontal | BoxDrawingKey::LightVertical => m.underline_height,
        _ => 2 * m.underline_height,
    };
    let half = t / 2;
    let (center, i) = match key {
        BoxDrawingKey::LightHorizontal | BoxDrawingKey::HeavyHorizontal => (
            m.cell_height / 2,
            y,
        ),
        _ => (m.cell_width / 2, x),
    };
    // compare as `center - half <= i < center - half + t` without going negative
    if i + half >= center && i + half < center + t {
        WHITE
    } else {
        CLEAR
    }
}

fn stripe_exec(first: i64, thickness: i64, y: i64) -> (r: bool)
    requires
        -0x10_0000 <= first <= 0x10_0000,
        0 <= thickness <= 0x10_0000,
    ensures
        r == in_stripe(first as int, thickness as int, y as int),
{
    first <= y && y < first + thickness
}

fn line_color(m: &RenderMetrics, key: LineKey, x: usize, y: usize) -> (r: u32)
    requires
        m.wf(),
        x < m.cell_width,
        y < m.cell_height,
    ensures
        r == line_pixel(*m, key, x as int, y as int),
{
    let t = m.underline_height as i64;
    let yy = y as i64;
    if key.strike_through && stripe_exec(m.strike_row as i64, t, yy) {
        return WHITE;
    }
    let under: Option<u32> = match key.underline {
        Underline::Single => if stripe_exec(m.descender_row as i64, t, yy) {
            Some(WHITE)
        } else {
            None
        },
        Underline::Double => {
            let lifted = m.descender_plus_two as i64 - 2 * t;
            let first = if (m.descender_row as i64) < lifted {
                m.descender_row as i64
            } else {
                lifted
            };
            if stripe_exec(first, t, yy) || stripe_exec(m.descender_plus_two as i64, t, yy) {
                Some(WHITE)
            } else {
                None
            }
        },
        Underline::Dotted | Underline::Dashed => if stripe_exec(m.descender_row as i64, t, yy) {
            let run = if key.underline == Underline::Dotted {
                m.cell_width / 4
            } else {
                m.cell_width / 3 + 1
            };
            if (x / run) % 2 == 0 {
                Some(WHITE)
            } else {
                Some(CLEAR)
            }
        } else {
            None
        },
        _ => None,
    };
    match under {
        Some(p) => p,
        None => if key.overline && y < m.underline_height {
            WHITE
        } else {
            CLEAR
        },
    }
}

/// Paints a cell-sized image pixel by pixel.
fn paint(m: &RenderMetrics, p: &Painter) -> (r: Image)
    requires
        m.wf(),
        p.fits(*m),
    ensures
        r.wf(),
        r.width == m.cell_width,
        r.height == m.cell_height,
        forall|x: int, y: int|
            0 <= x < m.cell_width && 0 <= y < m.cell_height ==> #[trigger] r.pixel(x, y)
                == p.color(*m, x, y),
{
    let w = m.cell_width;
    let h = m.cell_height;
    let mut rows: Vec<Vec<u32>> = Vec::new();
    let mut y: usize = 0;
    while y < h
        invariant
            y <= h,
            w == m.cell_width,
            h == m.cell_height,
            m.wf(),
            p.fits(*m),
            rows@.len() == y,
            forall|j: int| 0 <= j < y ==> #[trigger] rows@[j]@.len() == w,
            forall|x: int, j: int|
                0 <= x < w && 0 <= j < y ==> rows@[j]@[x] == p.color(*m, x, j),
        decreases h - y,
    {
        let mut row: Vec<u32> = Vec::new();
        let mut x: usize = 0;
        while x < w
            invariant
                x <= w,
                y < h,
                w == m.cell_width,
                h == m.cell_height,
                m.wf(),
                p.fits(*m),
                row@.len() == x,
                forall|i: int| 0 <= i < x ==> #[trigger] row@[i] == p.color(*m, i, y as int),
            decreases w - x,
        {
            let c = p.color_at(m, x, y);
            row.push(c);
            x = x + 1;
        }
        rows.push(row);
        y = y + 1;
    }
    Image { width: w, height: h, rows }
}

/// Marks the pixels along a side of `len` pixels that the first `n` eighth
/// bands cover; each band is `max(ceil(len / 8), 1)` pixels long, so that
/// even a small cell shows every band.
fn eighths_mask(len: usize, n: u8, from_end: bool) -> (r: Vec<bool>)
    requires
        1 <= len <= MAX_CELL_SIDE,
    ensures
        r@.len() == len,
        forall|i: int| 0 <= i < len ==> #[trigger] r@[i] == covered(len as int, n as nat, from_end, i),
{
    let mut mask: Vec<bool> = Vec::new();
    let mut i: usize = 0;
    while i < len
        invariant
            i <= len,
            mask@.len() == i,
            forall|j: int| 0 <= j < i ==> #[trigger] mask@[j] == false,
        decreases len - i,
    {
        mask.push(false);
        i = i + 1;
    }
    let span = span_exec(len as u64, 8) as usize;
    let mut k: usize = 0;
    while k < n as usize
        invariant
            k <= n,
            1 <= len <= MAX_CELL_SIDE,
            span as int == scaled_span(len as int, 8),
            mask@.len() == len,
            forall|j: int| 0 <= j < len ==> #[trigger] mask@[j] == covered(len as int, k as nat, from_end, j),
        decreases n - k,
    {
        proof {
            assert(k * len <= 255 * MAX_CELL_SIDE) by (nonlinear_arith)
                requires k < 256, len <= MAX_CELL_SIDE;
            assert((k + 1) * len <= 256 * MAX_CELL_SIDE) by (nonlinear_arith)
                requires k < 256, len <= MAX_CELL_SIDE;
        }
        let start: usize = if from_end {
            let back = (k + 1) * len / 8;
            if len < back {
                0
            } else {
                len - back
            }
        } else {
            k * len / 8
        };
        assert(start == band_start(len as int, k as int, from_end));
        assert(start <= MAX_CELL_SIDE * 32) by (nonlinear_arith)
            requires from_end ==> start <= len, !from_end ==> start == k * len / 8, k < 256, len <= MAX_CELL_SIDE;
        let mut a: usize = 0;
        while a < span
            invariant
                a <= span,
                start <= MAX_CELL_SIDE * 32,
                span <= MAX_CELL_SIDE,
                start == band_start(len as int, k as int, from_end),
                span as int == scaled_span(len as int, 8),
                mask@.len() == len,
                forall|j: int| 0 <= j < len ==> #[trigger] mask@[j] == (covered(len as int, k as nat, from_end, j)
                    || (start <= j < start + a)),
            decreases span - a,
        {
            if start + a < len {
                mask.set(start + a, true);
            }
            a = a + 1;
        }
        k = k + 1;
        assert forall|j: int| 0 <= j < len implies #[trigger] mask@[j] == covered(len as int, k as nat, from_end, j) by {
            assert(covered(len as int, k as nat, from_end, j) == (covered(len as int, (k - 1) as nat, from_end, j) || in_band(len as int, k - 1, from_end, j)));
        }
    }
    mask
}

/// The cell-sized image of a block element.
pub fn block_image(m: &RenderMetrics, key: BlockKey) -> (r: Image)
    requires
        m.wf(),
    ensures
        draws(r, *m, |x: int, y: int| block_pixel(*m, key, x, y)),
{
    let p = match key {
        BlockKey::Upper(n) => Painter::Mask { mask: eighths_mask(m.cell_height, n, false), by_column: false },
        BlockKey::Lower(n) => Painter::Mask { mask: eighths_mask(m.cell_height, n, true), by_column: false },
        BlockKey::Left(n) => Painter::Mask { mask: eighths_mask(m.cell_width, n, false), by_column: true },
        BlockKey::Right(n) => Painter::Mask { mask: eighths_mask(m.cell_width, n, true), by_column: true },
        BlockKey::Full(a) => {
            let (c, al): (u32, u32) = match a {
                BlockAlpha::Full => (255, 255),
                BlockAlpha::Dark => (225, 191),
                BlockAlpha::Medium => (188, 127),
                BlockAlpha::Light => (137, 63),
            };
            Painter::Fill(c + 256 * c + 65536 * c + 16777216 * al)
        },
        BlockKey::Quadrants(q) => Painter::Quads(q),
    };
    let r = paint(m, &p);
    assert forall|x: int, y: int| 0 <= x < m.cell_width && 0 <= y < m.cell_height implies #[trigger] r.pixel(x, y)
        == block_pixel(*m, key, x, y) by {
        assert(r.pixel(x, y) == p.color(*m, x, y));
    }
    r
}

/// The cell-sized image of a box-drawing line.
pub fn box_drawing_image(m: &RenderMetrics, key: BoxDrawingKey) -> (r: Image)
    requires
        m.wf(),
    ensures
        draws(r, *m, |x: int, y: int| box_pixel(*m, key, x, y)),
{
    let p = Painter::BoxLine(key);
    let r = paint(m, &p);
    assert forall|x: int, y: int| 0 <= x < m.cell_width && 0 <= y < m.cell_height implies #[trigger] r.pixel(x, y)
        == box_pixel(*m, key, x, y) by {
        assert(r.pixel(x, y) == p.color(*m, x, y));
    }
    r
}

/// The cell-sized image of a line decoration, before the wave of a curly
/// underline is added.
pub fn line_image(m: &RenderMetrics, key: LineKey) -> (r: Image)
    requires
        m.wf(),
    ensures
        draws(r, *m, |x: int, y: int| line_pixel(*m, key, x, y)),
{
    let p = Painter::Line(key);
    let r = paint(m, &p);
    assert forall|x: int, y: int| 0 <= x < m.cell_width && 0 <= y < m.cell_height implies #[trigger] r.pixel(x, y)
        == line_pixel(*m, key, x, y) by {
        assert(r.pixel(x, y) == p.color(*m, x, y));
    }
    r
}

/// One column of a curly underline's wave: the wave sits between the rows
/// `low` and `high` below its top (the floor and ceiling of its height
/// there), and `coverage` is the share of intensity that goes to `high`.
#[derive(Debug, Clone, Copy, PartialEq, Eq, Structural)]
pub struct WaveSample {
    pub low: usize,
    pub high: usize,
    pub coverage: u8,
}

/// Top row of a curly underline: half the wave's height above the
/// descender, where the wave spans from the descender to the cell bottom.
pub open spec fn wave_top(m: RenderMetrics) -> int {
    let wave = m.cell_height - m.descender_row;
    let half = if wave >= 2 {
        wave / 2
    } else {
        1
    };
    if m.descender_row < half {
        0
    } else {
        m.descender_row - half
    }
}

/// The red channel of a packed pixel.
pub open spec fn red(p: u32) -> int {
    p as int % 256
}

/// Adds `val` to the pixel when `target` (clamped to the last row) is row
/// `y`: the red channel grows, saturating at 255, and the pixel becomes an
/// opaque gray of that value.
pub open spec fn add_at(p: u32, target: int, max_y: int, y: int, val: int) -> u32 {
    let row = if target < max_y {
        target
    } else {
        max_y
    };
    if row == y {
        let v = if red(p) + val > 255 {
            255
        } else {
            red(p) + val
        };
        (v * 0x0001_0101 + 0xff00_0000) as u32
    } else {
        p
    }
}

/// The pixel at row `y` of a column of the wave after its first `n`
/// stroke rows are added to `p`.
pub open spec fn wave_pixel(m: RenderMetrics, s: WaveSample, p: u32, n: nat, y: int) -> u32
    decreases n,
{
    if n == 0 {
        p
    } else {
        let q = wave_pixel(m, s, p, (n - 1) as nat, y);
        let base = n - 1 + wave_top(m);
        let max_y = m.cell_height - 1;
        add_at(
            add_at(q, base + s.low, max_y, y, 255 - s.coverage),
            base + s.high,
            max_y,
            y,
            s.coverage as int,
        )
    }
}

/// The pixel at (x, y) of a line decoration, the wave included.
pub open spec fn line_pixel_waved(
    m: RenderMetrics,
    key: LineKey,
    wave: Seq<WaveSample>,
    x: int,
    y: int,
) -> u32 {
    if key.underline == Underline::Curly {
        wave_pixel(m, wave[x], line_pixel(m, key, x, y), m.underline_height as nat, y)
    } else {
        line_pixel(m, key, x, y)
    }
}

fn add_at_exec(p: u32, target: usize, max_y: usize, y: usize, val: u8) -> (r: u32)
    ensures
        r == add_at(p, target as int, max_y as int, y as int, val as int),
{
    let row = if target < max_y {
        target
    } else {
        max_y
    };
    if row == y {
        let cur = p % 256;
        let v = if cur + val as u32 > 255 {
            255
        } else {
            cur + val as u32
        };
        v * 0x0001_0101 + 0xff00_0000
    } else {
        p
    }
}

fn wave_pixel_exec(m: &RenderMetrics, s: WaveSample, p: u32, y: usize) -> (r: u32)
    requires
        m.wf(),
    ensures
        r == wave_pixel(*m, s, p, m.underline_height as nat, y as int),
{
    let wave: i64 = m.cell_height as i64 - m.descender_row as i64;
    let half: usize = if wave >= 2 {
        (wave / 2) as usize
    } else {
        1
    };
    let top: usize = if m.descender_row < half {
        0
    } else {
        m.descender_row - half
    };
    assert(top == wave_top(*m));
    let max_y = m.cell_height - 1;
    let mut q = p;
    let mut n: usize = 0;
    while n < m.underline_height
        invariant
            m.wf(),
            n <= m.underline_height,
            top == wave_top(*m),
            max_y == m.cell_height - 1,
            q == wave_pixel(*m, s, p, n as nat, y as int),
        decreases m.underline_height - n,
    {
        let base = n + top;
        // a target past the last row lands on the last row either way
        let lo = add_at_exec(q, base.saturating_add(s.low), max_y, y, 255 - s.coverage);
        q = add_at_exec(lo, base.saturating_add(s.high), max_y, y, s.coverage);
        n = n + 1;
    }
    q
}

/// Adds the wave of a curly underline to a cell-sized image, one sample per
/// column.
pub fn add_wave(m: &RenderMetrics, img: &Image, wave: &Vec<WaveSample>) -> (r: Image)
    requires
        m.wf(),
        img.wf(),
        img.width == m.cell_width,
        img.height == m.cell_height,
        wave@.len() == m.cell_width,
    ensures
        draws(r, *m, |x: int, y: int| wave_pixel(*m, wave@[x], img.pixel(x, y), m.underline_height as nat, y)),
{
    let mut rows: Vec<Vec<u32>> = Vec::new();
    let mut y: usize = 0;
    while y < m.cell_height
        invariant
            y <= m.cell_height,
            m.wf(),
            img.wf(),
            img.width == m.cell_width,
            img.height == m.cell_height,
            wave@.len() == m.cell_width,
            rows@.len() == y,
            forall|j: int| 0 <= j < y ==> #[trigger] rows@[j]@.len() == m.cell_width,
            forall|x: int, j: int|
                0 <= x < m.cell_width && 0 <= j < y ==> rows@[j]@[x] == wave_pixel(*m, wave@[x], img.pixel(x, j), m.underline_height as nat, j),
        decreases m.cell_height - y,
    {
        let mut row: Vec<u32> = Vec::new();
        let mut x: usize = 0;
        while x < m.cell_width
            invariant
                x <= m.cell_width,
                y < m.cell_height,
                m.wf(),
                img.wf(),
                img.width == m.cell_width,
                img.height == m.cell_height,
                wave@.len() == m.cell_width,
                row@.len() == x,
                forall|i: int| 0 <= i < x ==> #[trigger] row@[i] == wave_pixel(*m, wave@[i], img.pixel(i, y as int), m.underline_height as nat, y as int),
            decreases m.cell_width - x,
        {
            let c = wave_pixel_exec(m, wave[x], img.rows[y][x], y);
            row.push(c);
            x = x + 1;
        }
        rows.push(row);
        y = y + 1;
    }
    Image { width: m.cell_width, height: m.cell_height, rows }
}

/// The cell-sized image of a line decoration; a curly underline takes its
/// wave from `wave`, one sample per column.
pub fn line_sprite_image(m: &RenderMetrics, key: LineKey, wave: &Vec<WaveSample>) -> (r: Image)
    requires
        m.wf(),
        wave@.len() == m.cell_width,
    ensures
        draws(r, *m, |x: int, y: int| line_pixel_waved(*m, key, wave@, x, y)),
{
    let base = line_image(m, key);
    if key.underline == Underline::Curly {
        let r = add_wave(m, &base, wave);
        assert forall|x: int, y: int| 0 <= x < m.cell_width && 0 <= y < m.cell_height implies #[trigger] r.pixel(x, y)
            == line_pixel_waved(*m, key, wave@, x, y) by {
            assert(base.pixel(x, y) == line_pixel(*m, key, x, y));
        }
        r
    } else {
        assert forall|x: int, y: int| 0 <= x < m.cell_width && 0 <= y < m.cell_height implies #[trigger] base.pixel(x, y)
            == line_pixel_waved(*m, key, wave@, x, y) by {
            assert(base.pixel(x, y) == line_pixel(*m, key, x, y));
        }
        base
    }
}

/// The upper half block fills every row that lies wholly above the middle
/// of the cell with opaque white and leaves every row wholly below it
/// transparent; for an even cell height that is every row.
pub proof fn lemma_upper_half_block(m: RenderMetrics, x: int, y: int)
    requires
        m.wf(),
        0 <= x < m.cell_width,
        0 <= y < m.cell_height,
    ensures
        2 * (y + 1) <= m.cell_height ==> block_pixel(m, BlockKey::Upper(4), x, y) == WHITE,
        2 * y >= m.cell_height ==> block_pixel(m, BlockKey::Upper(4), x, y) == CLEAR,
{
    let h = m.cell_height as int;
    reveal_with_fuel(covered, 5);
    let q = h / 8;
    let r = h % 8;
    vstd::arithmetic::div_mod::lemma_fundamental_div_mod(h, 8);
    assert(h == 8 * q + r);
    let s = q + (r + 7) / 8;
    vstd::arithmetic::div_mod::lemma_fundamental_div_mod_converse(h + 7, 8, s, (r + 7) % 8);
    vstd::arithmetic::div_mod::lemma_fundamental_div_mod_converse(h, 8, q, r);
    vstd::arithmetic::div_mod::lemma_fundamental_div_mod_converse(2 * h, 8, 2 * q + (2 * r) / 8, (2 * r) % 8);
    vstd::arithmetic::div_mod::lemma_fundamental_div_mod_converse(3 * h, 8, 3 * q + (3 * r) / 8, (3 * r) % 8);
    assert(scaled_span(h, 8) == s);
    assert(band_start(h, 0, false) == 0);
    assert(band_start(h, 1, false) == q);
    assert(band_start(h, 2, false) == 2 * q + (2 * r) / 8);
    assert(band_start(h, 3, false) == 3 * q + (3 * r) / 8);
    assert(covered(h, 4, false, y) == (in_band(h, 0, false, y) || in_band(h, 1, false, y)
        || in_band(h, 2, false, y) || in_band(h, 3, false, y)));
    assert(0 <= r < 8);
    if r == 0 {
    } else if r == 1 {
    } else if r == 2 {
    } else if r == 3 {
    } else if r == 4 {
    } else if r == 5 {
    } else if r == 6 {
    } else {
    }
}

/// The quadrant block with the upper left and lower right quadrants fills
/// exactly those two and leaves the other two transparent.
pub proof fn lemma_diagonal_quadrants(m: RenderMetrics, x: int, y: int)
    requires
        m.wf(),
        0 <= x < m.cell_width,
        0 <= y < m.cell_height,
    ensures
        ({
            let hx = scaled_span(m.cell_width as int, 2);
            let hy = scaled_span(m.cell_height as int, 2);
            let key = BlockKey::Quadrants(
                crate::keys::Quadrant {
                    upper_left: true,
                    upper_right: false,
                    lower_left: false,
                    lower_right: true,
                },
            );
            &&& 0 < hx <= m.cell_width
            &&& 0 < hy <= m.cell_height
            &&& (x < hx && y < hy) ==> block_pixel(m, key, x, y) == WHITE
            &&& (hx <= x && hy <= y) ==> block_pixel(m, key, x, y) == WHITE
            &&& (hx <= x && y < hy) ==> block_pixel(m, key, x, y) == CLEAR
            &&& (x < hx && hy <= y) ==> block_pixel(m, key, x, y) == CLEAR
        }),
{
}

/// Counted from the end, the first `n` eighth bands of a side whose length
/// is a multiple of eight cover exactly its last `n` eighths.
pub proof fn lemma_eighths_from_end(len: int, n: nat, i: int)
    requires
        len > 0,
        len % 8 == 0,
        n <= 8,
        0 <= i < len,
    ensures
        covered(len, n, true, i) <==> i >= len - n * (len / 8),
    decreases n,
{
    let q = len / 8;
    vstd::arithmetic::div_mod::lemma_fundamental_div_mod(len, 8);
    assert(len == 8 * q);
    if n > 0 {
        lemma_eighths_from_end(len, (n - 1) as nat, i);
        let k = n - 1;
        assert((k + 1) * len == ((k + 1) * q) * 8 + 0) by (nonlinear_arith)
            requires len == 8 * q;
        vstd::arithmetic::div_mod::lemma_fundamental_div_mod_converse((k + 1) * len, 8, (k + 1) * q, 0);
        vstd::arithmetic::div_mod::lemma_fundamental_div_mod_converse(len + 7, 8, q, 7);
        assert(band_start(len, k, true) == len - (k + 1) * q) by (nonlinear_arith)
            requires len == 8 * q, k + 1 <= 8, q > 0, (k + 1) * len / 8 == (k + 1) * q;
        assert(scaled_span(len, 8) == q);
        assert(n * q == k * q + q) by (nonlinear_arith)
            requires n == k + 1;
        assert(covered(len, n, true, i) == (covered(len, (n - 1) as nat, true, i) || in_band(len, k, true, i)));
        assert(((n - 1) as nat) * (len / 8) == k * q);
        assert(in_band(len, k, true, i) == (len - n * q <= i < len - k * q));
        assert(covered(len, n, true, i) == (i >= len - n * q));
    } else {
        assert(n * (len / 8) == 0) by (nonlinear_arith)
            requires n == 0;
    }
}

} // verus!
