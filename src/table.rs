//! Small lookup tables from cache keys to sprites and glyphs.
use crate::glyph::{CachedGlyph, SpriteId};
use crate::keys::{BorrowedGlyphKey, CustomGlyphKey, GlyphKey, GlyphKeyModel, LineKey};
use vstd::prelude::*;

verus! {

/// A key that can be compared by value.
pub trait TableKey: Copy + Sized {
    fn same(&self, other: &Self) -> (r: bool)
        ensures
            r == (*self == *other),
    ;
}

impl TableKey for LineKey {
    fn same(&self, other: &Self) -> (r: bool) {
        *self == *other
    }
}

impl TableKey for CustomGlyphKey {
    fn same(&self, other: &Self) -> (r: bool) {
        *self == *other
    }
}

/// A frame of an image, by image id and frame index.
#[derive(Debug, Clone, Copy, PartialEq, Eq, Structural, Hash)]
pub struct FrameKey {
    pub image_id: usize,
    pub frame: usize,
}

impl TableKey for FrameKey {
    fn same(&self, other: &Self) -> (r: bool) {
        *self == *other
    }
}

/// The value that the latest entry for `k` holds.
pub open spec fn lookup<K>(s: Seq<(K, SpriteId)>, k: K) -> Option<SpriteId>
    decreases s.len(),
{
    if s.len() == 0 {
        None
    } else if s.last().0 == k {
        Some(s.last().1)
    } else {
        lookup(s.drop_last(), k)
    }
}

/// Sprites by key; a later entry for a key hides an earlier one.
pub struct SpriteTable<K> {
    entries: Vec<(K, SpriteId)>,
}

impl<K: TableKey> SpriteTable<K> {
    pub closed spec fn get_spec(&self, k: K) -> Option<SpriteId> {
        lookup(self.entries@, k)
    }

    pub fn new() -> (r: SpriteTable<K>)
        ensures
            forall|k: K| r.get_spec(k) is None,
    {
        SpriteTable { entries: Vec::new() }
    }

    pub fn get(&self, k: &K) -> (r: Option<SpriteId>)
        ensures
            r == self.get_spec(*k),
    {
        let mut i = self.entries.len();
        assert(self.entries@.take(i as int) =~= self.entries@);
        while i > 0
            invariant
                i <= self.entries@.len(),
                lookup(self.entries@.take(i as int), *k) == lookup(self.entries@, *k),
            decreases i,
        {
            assert(self.entries@.take(i as int).drop_last() =~= self.entries@.take(i - 1));
            let e = &self.entries[i - 1];
            if e.0.same(k) {
                return Some(e.1);
            }
            i = i - 1;
        }
        assert(self.entries@.take(0) =~= Seq::<(K, SpriteId)>::empty());
        None
    }

    pub fn insert(&mut self, k: K, v: SpriteId)
        ensures
            forall|j: K| #[trigger]
                final(self).get_spec(j) == if j == k {
                    Some(v)
                } else {
                    old(self).get_spec(j)
                },
    {
        self.entries.push((k, v));
        assert(self.entries@.drop_last() =~= old(self).entries@);
    }

    pub fn clear(&mut self)
        ensures
            forall|k: K| final(self).get_spec(k) is None,
    {
        self.entries = Vec::new();
    }
}

/// The glyph that the latest entry for a key with the field values `k`
/// holds.
pub open spec fn glyph_lookup(s: Seq<(GlyphKey, CachedGlyph)>, k: GlyphKeyModel) -> Option<
    CachedGlyph,
>
    decreases s.len(),
{
    if s.len() == 0 {
        None
    } else if s.last().0@ == k {
        Some(s.last().1)
    } else {
        glyph_lookup(s.drop_last(), k)
    }
}

/// Glyphs by key. Lookups take a borrowed key and compare field values, so
/// no owned key is made unless a glyph is inserted.
pub struct GlyphTable {
    entries: Vec<(GlyphKey, CachedGlyph)>,
}

impl GlyphTable {
    pub closed spec fn get_spec(&self, k: GlyphKeyModel) -> Option<CachedGlyph> {
        glyph_lookup(self.entries@, k)
    }

    pub fn new() -> (r: GlyphTable)
        ensures
            forall|k: GlyphKeyModel| r.get_spec(k) is None,
    {
        GlyphTable { entries: Vec::new() }
    }

    pub fn get(&self, k: &BorrowedGlyphKey) -> (r: Option<CachedGlyph>)
        ensures
            r == self.get_spec(k@),
    {
        let mut i = self.entries.len();
        assert(self.entries@.take(i as int) =~= self.entries@);
        while i > 0
            invariant
                i <= self.entries@.len(),
                glyph_lookup(self.entries@.take(i as int), k@) == glyph_lookup(self.entries@, k@),
            decreases i,
        {
            assert(self.entries@.take(i as int).drop_last() =~= self.entries@.take(i - 1));
            let e = &self.entries[i - 1];
            if k.matches(&e.0) {
                return Some(e.1);
            }
            i = i - 1;
        }
        assert(self.entries@.take(0) =~= Seq::<(GlyphKey, CachedGlyph)>::empty());
        None
    }

    pub fn insert(&mut self, k: GlyphKey, v: CachedGlyph)
        ensures
            forall|j: GlyphKeyModel| #[trigger]
                final(self).get_spec(j) == if j == k@ {
                    Some(v)
                } else {
                    old(self).get_spec(j)
                },
    {
        self.entries.push((k, v));
        assert(self.entries@.drop_last() =~= old(self).entries@);
    }

    pub fn clear(&mut self)
        ensures
            forall|k: GlyphKeyModel| final(self).get_spec(k) is None,
    {
        self.entries = Vec::new();
    }
}

/// A glyph inserted under an owned key is found by a borrowed key built
/// from the same field values.
pub proof fn lemma_borrowed_key_finds_owned_entry(
    before: GlyphTable,
    after: GlyphTable,
    owned: GlyphKey,
    borrowed: BorrowedGlyphKey,
    g: CachedGlyph,
)
    requires
        forall|j: GlyphKeyModel| #[trigger]
            after.get_spec(j) == if j == owned@ {
                Some(g)
            } else {
                before.get_spec(j)
            },
        owned.font_idx == borrowed.font_idx,
        owned.glyph_pos == borrowed.glyph_pos,
        owned.style.font_id == borrowed.style.font_id,
        owned.style.foreground == borrowed.style.foreground,
        owned.followed_by_space == borrowed.followed_by_space,
    ensures
        after.get_spec(borrowed@) == Some(g),
{
    assert(owned@ == borrowed@);
}

} // verus!
