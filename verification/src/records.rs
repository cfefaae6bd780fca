use vstd::prelude::*;

verus! {

/// The glyph a sprite shows.
#[derive(Clone, Copy, PartialEq, Eq, Structural, Debug)]
pub struct TermChar(pub char);

/// The string a text run shows.
#[derive(Clone, PartialEq, Eq, Debug)]
pub struct TermText(pub String);

impl TermText {
    /// Build a text run's string from a borrowed slice.
    pub fn from_str(s: &str) -> (t: TermText)
        ensures
            t.0@ == s@,
    {
        TermText(s.to_owned())
    }
}

/// How a text run is laid out around its anchor column: unchanged, shifted
/// left by half its length, or by its whole length.
#[derive(Clone, Copy, PartialEq, Eq, Structural, Debug)]
pub enum TermTextAlign {
    LEFT,
    CENTER,
    RIGHT,
}

/// Marks the (at most one) camera whose position centers the viewport.
#[derive(Clone, Copy, PartialEq, Eq, Structural, Debug)]
pub struct TermCamera;

/// A camera's world position, already settled to whole cells.
#[derive(Clone, Copy, PartialEq, Eq, Structural, Debug)]
pub struct CameraRecord {
    pub x: i64,
    pub y: i64,
}

/// One drawable sprite for the current tick: a world cell position, a depth
/// key, and the glyph to place there.
#[derive(Clone, Copy, PartialEq, Eq, Structural, Debug)]
pub struct SpriteRecord {
    pub x: i64,
    pub y: i64,
    pub depth: i64,
    pub glyph: TermChar,
}

/// One drawable text run for the current tick: an anchor world cell, a depth
/// key, the text, and its alignment.
#[derive(Clone, PartialEq, Eq, Debug)]
pub struct TextRecord {
    pub x: i64,
    pub y: i64,
    pub depth: i64,
    pub text: TermText,
    pub align: TermTextAlign,
}

} // verus!
