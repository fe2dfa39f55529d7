//! A cache of GPU sprites for a terminal renderer: font glyphs, decoded
//! (possibly animated) images, procedurally drawn block and box-drawing
//! glyphs, and line decorations.
pub mod keys;
pub mod bitmap;
pub mod glyph;
pub mod anim;
pub mod table;
pub mod cache;
