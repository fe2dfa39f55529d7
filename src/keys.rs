//! Cache keys: glyph identities, custom (procedurally drawn) glyphs and
//! line decorations.
use vstd::prelude::*;

verus! {

/// A text style, interned by the font configuration into plain values:
/// the font it selects and an optional foreground color.
#[derive(Debug, Clone, Copy, PartialEq, Eq, Structural)]
pub struct TextStyle {
    pub font_id: u32,
    pub foreground: Option<u32>,
}

/// Identity of a rendered glyph, as held by the glyph cache.
#[derive(Debug, Clone)]
pub struct GlyphKey {
    pub font_idx: usize,
    pub glyph_pos: u32,
    pub style: TextStyle,
    pub followed_by_space: bool,
}

/// The borrowed form of `GlyphKey`: lookups are made with this view so that
/// the style does not have to be copied; only an insertion materializes an
/// owned key.
#[derive(Debug, Clone, Copy)]
pub struct BorrowedGlyphKey<'a> {
    pub font_idx: usize,
    pub glyph_pos: u32,
    pub style: &'a TextStyle,
    pub followed_by_space: bool,
}

/// The field values of a glyph key, independent of how the key is held.
pub struct GlyphKeyModel {
    pub font_idx: usize,
    pub glyph_pos: u32,
    pub font_id: u32,
    pub foreground: Option<u32>,
    pub followed_by_space: bool,
}

impl GlyphKey {
    pub open spec fn view(&self) -> GlyphKeyModel {
        GlyphKeyModel {
            font_idx: self.font_idx,
            glyph_pos: self.glyph_pos,
            font_id: self.style.font_id,
            foreground: self.style.foreground,
            followed_by_space: self.followed_by_space,
        }
    }

    /// The borrowed view of this key, comparing equal to it field by field.
    pub fn key(&self) -> (r: BorrowedGlyphKey<'_>)
        ensures
            r@ == self@,
    {
        BorrowedGlyphKey {
            font_idx: self.font_idx,
            glyph_pos: self.glyph_pos,
            style: &self.style,
            followed_by_space: self.followed_by_space,
        }
    }
}

impl<'a> BorrowedGlyphKey<'a> {
    pub open spec fn view(&self) -> GlyphKeyModel {
        GlyphKeyModel {
            font_idx: self.font_idx,
            glyph_pos: self.glyph_pos,
            font_id: self.style.font_id,
            foreground: self.style.foreground,
            followed_by_space: self.followed_by_space,
        }
    }

    /// Materializes an owned key with the same field values.
    pub fn to_owned(&self) -> (r: GlyphKey)
        ensures
            r@ == self@,
    {
        GlyphKey {
            font_idx: self.font_idx,
            glyph_pos: self.glyph_pos,
            style: TextStyle { font_id: self.style.font_id, foreground: self.style.foreground },
            followed_by_space: self.followed_by_space,
        }
    }

    /// Compares this lookup key with a stored key by field values alone.
    pub fn matches(&self, stored: &GlyphKey) -> (r: bool)
        ensures
            r == (self@ == stored@),
    {
        let fg_same = match (self.style.foreground, stored.style.foreground) {
            (Some(a), Some(b)) => a == b,
            (None, None) => true,
            _ => false,
        };
        self.font_idx == stored.font_idx && self.glyph_pos == stored.glyph_pos
            && self.style.font_id == stored.style.font_id && fg_same
            && self.followed_by_space == stored.followed_by_space
    }
}

/// A subset of the four quadrants of a cell.
#[derive(Debug, Clone, Copy, PartialEq, Eq, Structural, Hash)]
pub struct Quadrant {
    pub upper_left: bool,
    pub upper_right: bool,
    pub lower_left: bool,
    pub lower_right: bool,
}

impl Quadrant {
    /// The set of quadrants from its four members.
    pub fn new(upper_left: bool, upper_right: bool, lower_left: bool, lower_right: bool) -> (r:
        Quadrant)
        ensures
            r == (Quadrant { upper_left, upper_right, lower_left, lower_right }),
    {
        Quadrant { upper_left, upper_right, lower_left, lower_right }
    }

    /// Whether every quadrant of `other` is in `self`.
    pub fn contains(&self, other: Quadrant) -> (r: bool)
        ensures
            r == ((other.upper_left ==> self.upper_left) && (other.upper_right
                ==> self.upper_right) && (other.lower_left ==> self.lower_left) && (
            other.lower_right ==> self.lower_right)),
    {
        (!other.upper_left || self.upper_left) && (!other.upper_right || self.upper_right) && (
        !other.lower_left || self.lower_left) && (!other.lower_right || self.lower_right)
    }
}

/// Opacity of a full block.
#[derive(Debug, Clone, Copy, PartialEq, Eq, Structural, Hash)]
pub enum BlockAlpha {
    /// 100%
    Full,
    /// 75%
    Dark,
    /// 50%
    Medium,
    /// 25%
    Light,
}

/// A glyph of the Block Elements range (U+2580..U+259F).
#[derive(Debug, Clone, Copy, PartialEq, Eq, Structural, Hash)]
pub enum BlockKey {
    /// Number of 1/8ths in the upper half
    Upper(u8),
    /// Number of 1/8ths in the lower half
    Lower(u8),
    /// Number of 1/8ths in the left half
    Left(u8),
    /// Number of 1/8ths in the right half
    Right(u8),
    /// Full block with alpha level
    Full(BlockAlpha),
    /// A combination of quadrants
    Quadrants(Quadrant),
}

/// A glyph of the Box Drawing range (U+2500..U+257F) that is drawn here.
#[derive(Debug, Clone, Copy, PartialEq, Eq, Structural, Hash)]
pub enum BoxDrawingKey {
    LightHorizontal,
    HeavyHorizontal,
    LightVertical,
    HeavyVertical,
}

/// A glyph that is drawn procedurally rather than taken from a font.
#[derive(Debug, Clone, Copy, PartialEq, Eq, Structural, Hash)]
pub enum CustomGlyphKey {
    BoxDrawing(BoxDrawingKey),
    Block(BlockKey),
}

pub open spec fn quads(ul: bool, ur: bool, ll: bool, lr: bool) -> BlockKey {
    BlockKey::Quadrants(
        Quadrant { upper_left: ul, upper_right: ur, lower_left: ll, lower_right: lr },
    )
}

/// The block element that a code point stands for.
pub open spec fn block_of(c: u32) -> Option<BlockKey> {
    if c == 0x2580 {
        Some(BlockKey::Upper(4))
    } else if 0x2581 <= c <= 0x2587 {
        Some(BlockKey::Lower((c - 0x2580) as u8))
    } else if c == 0x2588 {
        Some(BlockKey::Full(BlockAlpha::Full))
    } else if 0x2589 <= c <= 0x258f {
        Some(BlockKey::Left((0x2590 - c) as u8))
    } else if c == 0x2590 {
        Some(BlockKey::Right(4))
    } else if c == 0x2591 {
        Some(BlockKey::Full(BlockAlpha::Light))
    } else if c == 0x2592 {
        Some(BlockKey::Full(BlockAlpha::Medium))
    } else if c == 0x2593 {
        Some(BlockKey::Full(BlockAlpha::Dark))
    } else if c == 0x2594 {
        Some(BlockKey::Upper(1))
    } else if c == 0x2595 {
        Some(BlockKey::Right(1))
    } else if c == 0x2596 {
        Some(quads(false, false, true, false))
    } else if c == 0x2597 {
        Some(quads(false, false, false, true))
    } else if c == 0x2598 {
        Some(quads(true, false, false, false))
    } else if c == 0x2599 {
        Some(quads(true, false, true, true))
    } else if c == 0x259a {
        Some(quads(true, false, false, true))
    } else if c == 0x259b {
        Some(quads(true, true, true, false))
    } else if c == 0x259c {
        Some(quads(true, true, false, true))
    } else if c == 0x259d {
        Some(quads(false, true, false, false))
    } else if c == 0x259e {
        Some(quads(false, true, true, false))
    } else if c == 0x259f {
        Some(quads(false, true, true, true))
    } else {
        None
    }
}

/// The box-drawing glyph that a code point stands for.
pub open spec fn box_drawing_of(c: u32) -> Option<BoxDrawingKey> {
    if c == 0x2500 {
        Some(BoxDrawingKey::LightHorizontal)
    } else if c == 0x2501 {
        Some(BoxDrawingKey::HeavyHorizontal)
    } else if c == 0x2502 {
        Some(BoxDrawingKey::LightVertical)
    } else if c == 0x2503 {
        Some(BoxDrawingKey::HeavyVertical)
    } else {
        None
    }
}

/// The custom glyph that a code point stands for.
pub open spec fn custom_glyph_of(c: u32) -> Option<CustomGlyphKey> {
    if 0x2500 <= c <= 0x257f {
        match box_drawing_of(c) {
            Some(b) => Some(CustomGlyphKey::BoxDrawing(b)),
            None => None,
        }
    } else if 0x2580 <= c <= 0x259f {
        match block_of(c) {
            Some(b) => Some(CustomGlyphKey::Block(b)),
            None => None,
        }
    } else {
        None
    }
}

impl BlockKey {
    pub fn from_char(c: char) -> (r: Option<BlockKey>)
        ensures
            r == block_of(c as u32),
    {
        let c = c as u32;
        if c == 0x2580 {
            Some(BlockKey::Upper(4))
        } else if 0x2581 <= c && c <= 0x2587 {
            Some(BlockKey::Lower((c - 0x2580) as u8))
        } else if c == 0x2588 {
            Some(BlockKey::Full(BlockAlpha::Full))
        } else if 0x2589 <= c && c <= 0x258f {
            Some(BlockKey::Left((0x2590 - c) as u8))
        } else if c == 0x2590 {
            Some(BlockKey::Right(4))
        } else if c == 0x2591 {
            Some(BlockKey::Full(BlockAlpha::Light))
        } else if c == 0x2592 {
            Some(BlockKey::Full(BlockAlpha::Medium))
        } else if c == 0x2593 {
            Some(BlockKey::Full(BlockAlpha::Dark))
        } else if c == 0x2594 {
            Some(BlockKey::Upper(1))
        } else if c == 0x2595 {
            Some(BlockKey::Right(1))
        } else if c == 0x2596 {
            Some(BlockKey::Quadrants(Quadrant::new(false, false, true, false)))
        } else if c == 0x2597 {
            Some(BlockKey::Quadrants(Quadrant::new(false, false, false, true)))
        } else if c == 0x2598 {
            Some(BlockKey::Quadrants(Quadrant::new(true, false, false, false)))
        } else if c == 0x2599 {
            Some(BlockKey::Quadrants(Quadrant::new(true, false, true, true)))
        } else if c == 0x259a {
            Some(BlockKey::Quadrants(Quadrant::new(true, false, false, true)))
        } else if c == 0x259b {
            Some(BlockKey::Quadrants(Quadrant::new(true, true, true, false)))
        } else if c == 0x259c {
            Some(BlockKey::Quadrants(Quadrant::new(true, true, false, true)))
        } else if c == 0x259d {
            Some(BlockKey::Quadrants(Quadrant::new(false, true, false, false)))
        } else if c == 0x259e {
            Some(BlockKey::Quadrants(Quadrant::new(false, true, true, false)))
        } else if c == 0x259f {
            Some(BlockKey::Quadrants(Quadrant::new(false, true, true, true)))
        } else {
            None
        }
    }
}

impl BoxDrawingKey {
    pub fn from_char(c: char) -> (r: Option<BoxDrawingKey>)
        ensures
            r == box_drawing_of(c as u32),
    {
        let c = c as u32;
        if c == 0x2500 {
            Some(BoxDrawingKey::LightHorizontal)
        } else if c == 0x2501 {
            Some(BoxDrawingKey::HeavyHorizontal)
        } else if c == 0x2502 {
            Some(BoxDrawingKey::LightVertical)
        } else if c == 0x2503 {
            Some(BoxDrawingKey::HeavyVertical)
        } else {
            None
        }
    }
}

impl CustomGlyphKey {
    pub fn from_char(c: char) -> (r: Option<CustomGlyphKey>)
        ensures
            r == custom_glyph_of(c as u32),
    {
        let n = c as u32;
        if 0x2500 <= n && n <= 0x257f {
            match BoxDrawingKey::from_char(c) {
                Some(b) => Some(CustomGlyphKey::BoxDrawing(b)),
                None => None,
            }
        } else if 0x2580 <= n && n <= 0x259f {
            match BlockKey::from_char(c) {
                Some(b) => Some(CustomGlyphKey::Block(b)),
                None => None,
            }
        } else {
            None
        }
    }

    /// The custom glyph for the text of a cell: a cell qualifies only when it
    /// holds exactly one character.
    pub fn from_cell(text: &str) -> (r: Option<CustomGlyphKey>)
        ensures
            r == (if text@.len() == 1 {
                custom_glyph_of(text@[0] as u32)
            } else {
                None
            }),
    {
        broadcast use vstd::string::axiom_spec_iter, vstd::string::next_postcondition;

        let mut chars = text.chars();
        match chars.next() {
            None => None,
            Some(first) => match chars.next() {
                Some(_) => None,
                None => CustomGlyphKey::from_char(first),
            },
        }
    }
}

/// The style of an underline.
#[derive(Debug, Clone, Copy, PartialEq, Eq, Structural, Hash)]
pub enum Underline {
    NoUnderline,
    Single,
    Double,
    Curly,
    Dotted,
    Dashed,
}

/// Identity of a line-decoration sprite.
#[derive(Debug, Clone, Copy, PartialEq, Eq, Structural, Hash)]
pub struct LineKey {
    pub strike_through: bool,
    pub underline: Underline,
    pub overline: bool,
}

/// The underline drawn for a cell: a highlighted hyperlink raises it by one
/// step (none to single, single to double, anything else to single).
pub open spec fn effective_underline_spec(highlighted: bool, underline: Underline) -> Underline {
    if !highlighted {
        underline
    } else if underline == Underline::NoUnderline {
        Underline::Single
    } else if underline == Underline::Single {
        Underline::Double
    } else {
        Underline::Single
    }
}

pub fn effective_underline(highlighted: bool, underline: Underline) -> (r: Underline)
    ensures
        r == effective_underline_spec(highlighted, underline),
{
    match (highlighted, underline) {
        (true, Underline::NoUnderline) => Underline::Single,
        (true, Underline::Single) => Underline::Double,
        (true, _) => Underline::Single,
        (false, u) => u,
    }
}

} // verus!
