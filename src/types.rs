//! The pieces of a stroke font: points, strokes and glyphs.
//!
//! Coordinates are in a 100 by 100 design box with the origin at the bottom
//! left; angles are in degrees.
use vstd::prelude::*;

verus! {

/// A point of the design box.
#[derive(Clone, Copy, Debug, PartialEq, Eq, Structural)]
pub struct Pt(pub i16, pub i16);

/// One pen stroke of a glyph.
#[derive(Clone, Copy, Debug, PartialEq, Eq, Structural)]
pub enum Stroke {
    /// A straight line between two points.
    Line { from: Pt, to: Pt },
    /// A circular arc around `center`, from angle `start` to angle `end`.
    Arc { center: Pt, radius: i16, start: i16, end: i16 },
}

/// The drawing of one character.
#[derive(Debug)]
pub struct Glyph {
    pub ch: char,
    pub strokes: Vec<Stroke>,
    /// The share of the full width the glyph takes, in percent, where it is
    /// narrower than the design box.
    pub width_restriction: Option<u8>,
}

} // verus!
