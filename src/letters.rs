//! The stroke table of a small vector font: lower-case letters, a few
//! digits and the space.
use crate::types::{Glyph, Pt, Stroke};
use std::collections::HashMap;
use vstd::prelude::*;

verus! {

broadcast use vstd::std_specs::hash::group_hash_axioms;

/// A straight stroke from `(x1, y1)` to `(x2, y2)`.
pub open spec fn line(x1: i16, y1: i16, x2: i16, y2: i16) -> Stroke {
    Stroke::Line { from: Pt(x1, y1), to: Pt(x2, y2) }
}

/// An arc of radius `r` around `(x, y)` from angle `start` to angle `end`.
pub open spec fn arc(x: i16, y: i16, r: i16, start: i16, end: i16) -> Stroke {
    Stroke::Arc { center: Pt(x, y), radius: r, start, end }
}

/// The characters the font draws.
pub open spec fn glyph_chars() -> Set<char> {
    set![        ' ',
        'g',
        'e',
        'n',
        'u',
        'r',
        'a',
        'y',
        'b',
        'c',
        'd',
        'f',
        'h',
        'i',
        'j',
        'k',
        'l',
        'm',
        'o',
        'p',
        'q',
        's',
        't',
        'v',
        'w',
        'x',
        'z',
        '0',
        '1',
        '2',
    ]
}

/// The strokes that draw `c`, in drawing order.
pub open spec fn glyph_strokes(c: char) -> Seq<Stroke> {
    match c {
        'g' => seq![
            arc(50, 50, 50, 0, 360),
            arc(50, 10, 50, 240, 390),
        ],
        'e' => seq![
            arc(50, 50, 50, 0, 270),
            line(50, 50, 100, 50),
        ],
        'n' => seq![
            line(0, 0, 0, 100),
            arc(50, 50, 50, 0, 180),
            line(100, 0, 100, 50),
        ],
        'u' => seq![
            line(0, 100, 0, 50),
            arc(50, 50, 50, 180, 360),
            line(100, 100, 100, 50),
        ],
        'r' => seq![
            line(0, 0, 0, 100),
            arc(0, 50, 50, 0, 90),
        ],
        'a' => seq![
            arc(50, 50, 50, 0, 360),
            line(100, 0, 100, 100),
        ],
        'y' => seq![
            line(0, 100, 50, 50),
            line(50, 50, 100, 100),
            line(50, 50, 50, 0),
        ],
        'b' => seq![
            line(0, 0, 0, 100),
            arc(50, 25, 50, 270, 90),
            arc(50, 75, 50, 270, 90),
        ],
        'c' => seq![
            arc(50, 50, 50, 45, 315),
        ],
        'd' => seq![
            line(100, 0, 100, 100),
            arc(50, 50, 50, 90, 270),
        ],
        'f' => seq![
            line(25, 0, 25, 100),
            line(25, 100, 75, 100),
            line(25, 50, 75, 50),
        ],
        'h' => seq![
            line(0, 0, 0, 100),
            line(100, 0, 100, 100),
            line(0, 50, 100, 50),
        ],
        'i' => seq![
            line(50, 0, 50, 100),
            arc(50, 100, 5, 0, 360),
        ],
        'j' => seq![
            line(75, 0, 75, 75),
            arc(50, 25, 25, 0, 180),
            arc(75, 100, 5, 0, 360),
        ],
        'k' => seq![
            line(0, 0, 0, 100),
            line(0, 50, 100, 100),
            line(0, 50, 100, 0),
        ],
        'l' => seq![
            line(50, 0, 50, 100),
        ],
        'm' => seq![
            line(0, 0, 0, 100),
            line(50, 0, 50, 100),
            line(100, 0, 100, 100),
            arc(25, 100, 25, 180, 0),
            arc(75, 100, 25, 180, 0),
        ],
        'o' => seq![
            arc(50, 50, 50, 0, 360),
        ],
        'p' => seq![
            line(0, 0, 0, 100),
            arc(50, 75, 50, 270, 90),
        ],
        'q' => seq![
            arc(50, 50, 50, 0, 360),
            line(70, 30, 100, 0),
        ],
        's' => seq![
            arc(50, 75, 25, 0, 270),
            arc(50, 25, 25, 180, 90),
        ],
        't' => seq![
            line(50, 0, 50, 100),
            line(25, 100, 75, 100),
        ],
        'v' => seq![
            line(0, 100, 50, 0),
            line(50, 0, 100, 100),
        ],
        'w' => seq![
            line(0, 100, 25, 0),
            line(25, 0, 50, 50),
            line(50, 50, 75, 0),
            line(75, 0, 100, 100),
        ],
        'x' => seq![
            line(0, 0, 100, 100),
            line(0, 100, 100, 0),
        ],
        'z' => seq![
            line(0, 100, 100, 100),
            line(100, 100, 0, 0),
            line(0, 0, 100, 0),
        ],
        '0' => seq![
            arc(50, 50, 50, 0, 360),
        ],
        '1' => seq![
            line(50, 0, 50, 100),
        ],
        '2' => seq![
            arc(50, 75, 50, 0, 270),
            line(50, 75, 0, 0),
        ],
        _ => Seq::empty(),
    }
}

/// The width restriction of `c`, in percent of the design box.
pub open spec fn glyph_width(c: char) -> Option<u8> {
    match c {
        'r' => Some(10u8),
        'c' => Some(70u8),
        'f' => Some(75u8),
        'i' => Some(30u8),
        'j' => Some(75u8),
        'k' => Some(80u8),
        'l' => Some(30u8),
        'o' => Some(90u8),
        'p' => Some(80u8),
        's' => Some(70u8),
        't' => Some(70u8),
        'z' => Some(80u8),
        '0' => Some(80u8),
        '1' => Some(30u8),
        '2' => Some(80u8),
        _ => None,
    }
}

/// Whether `g` is the glyph of `c` in the font.
pub open spec fn is_glyph_of(g: Glyph, c: char) -> bool {
    &&& g.ch == c
    &&& g.strokes@ == glyph_strokes(c)
    &&& g.width_restriction == glyph_width(c)
}

/// Adds the glyph of `ch` to `glyphs`, under the code point of `ch`.
fn add_glyph(
    glyphs: &mut HashMap<u32, Glyph>,
    ch: char,
    strokes: Vec<Stroke>,
    width_restriction: Option<u8>,
)
    ensures
        final(glyphs)@ == old(glyphs)@.insert(ch as u32, Glyph { ch, strokes, width_restriction }),
{
    glyphs.insert(ch as u32, Glyph { ch, strokes, width_restriction });
}

/// The font, keyed by the code point of each character.
pub fn define_glyphs() -> (r: HashMap<u32, Glyph>)
    ensures
        forall|c: char| #[trigger]
            glyph_chars().contains(c) ==> r@.contains_key(c as u32) && is_glyph_of(r@[c as u32], c),
        forall|k: u32| #[trigger]
            r@.contains_key(k) ==> glyph_chars().contains(r@[k].ch) && r@[k].ch as u32 == k,
{
    let mut glyphs: HashMap<u32, Glyph> = HashMap::new();
    add_glyph(&mut glyphs, ' ', Vec::new(), None);
    add_glyph(
        &mut glyphs,
        'g',
        vec![
            Stroke::Arc { center: Pt(50, 50), radius: 50, start: 0, end: 360 },
            Stroke::Arc { center: Pt(50, 10), radius: 50, start: 240, end: 390 },
        ],
        None,
    );
    add_glyph(
        &mut glyphs,
        'e',
        vec![
            Stroke::Arc { center: Pt(50, 50), radius: 50, start: 0, end: 270 },
            Stroke::Line { from: Pt(50, 50), to: Pt(100, 50) },
        ],
        None,
    );
    add_glyph(
        &mut glyphs,
        'n',
        vec![
            Stroke::Line { from: Pt(0, 0), to: Pt(0, 100) },
            Stroke::Arc { center: Pt(50, 50), radius: 50, start: 0, end: 180 },
            Stroke::Line { from: Pt(100, 0), to: Pt(100, 50) },
        ],
        None,
    );
    add_glyph(
        &mut glyphs,
        'u',
        vec![
            Stroke::Line { from: Pt(0, 100), to: Pt(0, 50) },
            Stroke::Arc { center: Pt(50, 50), radius: 50, start: 180, end: 360 },
            Stroke::Line { from: Pt(100, 100), to: Pt(100, 50) },
        ],
        None,
    );
    add_glyph(
        &mut glyphs,
        'r',
        vec![
            Stroke::Line { from: Pt(0, 0), to: Pt(0, 100) },
            Stroke::Arc { center: Pt(0, 50), radius: 50, start: 0, end: 90 },
        ],
        Some(10),
    );
    add_glyph(
        &mut glyphs,
        'a',
        vec![
            Stroke::Arc { center: Pt(50, 50), radius: 50, start: 0, end: 360 },
            Stroke::Line { from: Pt(100, 0), to: Pt(100, 100) },
        ],
        None,
    );
    add_glyph(
        &mut glyphs,
        'y',
        vec![
            Stroke::Line { from: Pt(0, 100), to: Pt(50, 50) },
            Stroke::Line { from: Pt(50, 50), to: Pt(100, 100) },
            Stroke::Line { from: Pt(50, 50), to: Pt(50, 0) },
        ],
        None,
    );
    add_glyph(
        &mut glyphs,
        'b',
        vec![
            Stroke::Line { from: Pt(0, 0), to: Pt(0, 100) },
            Stroke::Arc { center: Pt(50, 25), radius: 50, start: 270, end: 90 },
            Stroke::Arc { center: Pt(50, 75), radius: 50, start: 270, end: 90 },
        ],
        None,
    );
    add_glyph(
        &mut glyphs,
        'c',
        vec![
            Stroke::Arc { center: Pt(50, 50), radius: 50, start: 45, end: 315 },
        ],
        Some(70),
    );
    add_glyph(
        &mut glyphs,
        'd',
        vec![
            Stroke::Line { from: Pt(100, 0), to: Pt(100, 100) },
            Stroke::Arc { center: Pt(50, 50), radius: 50, start: 90, end: 270 },
        ],
        None,
    );
    add_glyph(
        &mut glyphs,
        'f',
        vec![
            Stroke::Line { from: Pt(25, 0), to: Pt(25, 100) },
            Stroke::Line { from: Pt(25, 100), to: Pt(75, 100) },
            Stroke::Line { from: Pt(25, 50), to: Pt(75, 50) },
        ],
        Some(75),
    );
    add_glyph(
        &mut glyphs,
        'h',
        vec![
            Stroke::Line { from: Pt(0, 0), to: Pt(0, 100) },
            Stroke::Line { from: Pt(100, 0), to: Pt(100, 100) },
            Stroke::Line { from: Pt(0, 50), to: Pt(100, 50) },
        ],
        None,
    );
    add_glyph(
        &mut glyphs,
        'i',
        vec![
            Stroke::Line { from: Pt(50, 0), to: Pt(50, 100) },
            Stroke::Arc { center: Pt(50, 100), radius: 5, start: 0, end: 360 },
        ],
        Some(30),
    );
    add_glyph(
        &mut glyphs,
        'j',
        vec![
            Stroke::Line { from: Pt(75, 0), to: Pt(75, 75) },
            Stroke::Arc { center: Pt(50, 25), radius: 25, start: 0, end: 180 },
            Stroke::Arc { center: Pt(75, 100), radius: 5, start: 0, end: 360 },
        ],
        Some(75),
    );
    add_glyph(
        &mut glyphs,
        'k',
        vec![
            Stroke::Line { from: Pt(0, 0), to: Pt(0, 100) },
            Stroke::Line { from: Pt(0, 50), to: Pt(100, 100) },
            Stroke::Line { from: Pt(0, 50), to: Pt(100, 0) },
        ],
        Some(80),
    );
    add_glyph(
        &mut glyphs,
        'l',
        vec![
            Stroke::Line { from: Pt(50, 0), to: Pt(50, 100) },
        ],
        Some(30),
    );
    add_glyph(
        &mut glyphs,
        'm',
        vec![
            Stroke::Line { from: Pt(0, 0), to: Pt(0, 100) },
            Stroke::Line { from: Pt(50, 0), to: Pt(50, 100) },
            Stroke::Line { from: Pt(100, 0), to: Pt(100, 100) },
            Stroke::Arc { center: Pt(25, 100), radius: 25, start: 180, end: 0 },
            Stroke::Arc { center: Pt(75, 100), radius: 25, start: 180, end: 0 },
        ],
        None,
    );
    add_glyph(
        &mut glyphs,
        'o',
        vec![
            Stroke::Arc { center: Pt(50, 50), radius: 50, start: 0, end: 360 },
        ],
        Some(90),
    );
    add_glyph(
        &mut glyphs,
        'p',
        vec![
            Stroke::Line { from: Pt(0, 0), to: Pt(0, 100) },
            Stroke::Arc { center: Pt(50, 75), radius: 50, start: 270, end: 90 },
        ],
        Some(80),
    );
    add_glyph(
        &mut glyphs,
        'q',
        vec![
            Stroke::Arc { center: Pt(50, 50), radius: 50, start: 0, end: 360 },
            Stroke::Line { from: Pt(70, 30), to: Pt(100, 0) },
        ],
        None,
    );
    add_glyph(
        &mut glyphs,
        's',
        vec![
            Stroke::Arc { center: Pt(50, 75), radius: 25, start: 0, end: 270 },
            Stroke::Arc { center: Pt(50, 25), radius: 25, start: 180, end: 90 },
        ],
        Some(70),
    );
    add_glyph(
        &mut glyphs,
        't',
        vec![
            Stroke::Line { from: Pt(50, 0), to: Pt(50, 100) },
            Stroke::Line { from: Pt(25, 100), to: Pt(75, 100) },
        ],
        Some(70),
    );
    add_glyph(
        &mut glyphs,
        'v',
        vec![
            Stroke::Line { from: Pt(0, 100), to: Pt(50, 0) },
            Stroke::Line { from: Pt(50, 0), to: Pt(100, 100) },
        ],
        None,
    );
    add_glyph(
        &mut glyphs,
        'w',
        vec![
            Stroke::Line { from: Pt(0, 100), to: Pt(25, 0) },
            Stroke::Line { from: Pt(25, 0), to: Pt(50, 50) },
            Stroke::Line { from: Pt(50, 50), to: Pt(75, 0) },
            Stroke::Line { from: Pt(75, 0), to: Pt(100, 100) },
        ],
        None,
    );
    add_glyph(
        &mut glyphs,
        'x',
        vec![
            Stroke::Line { from: Pt(0, 0), to: Pt(100, 100) },
            Stroke::Line { from: Pt(0, 100), to: Pt(100, 0) },
        ],
        None,
    );
    add_glyph(
        &mut glyphs,
        'z',
        vec![
            Stroke::Line { from: Pt(0, 100), to: Pt(100, 100) },
            Stroke::Line { from: Pt(100, 100), to: Pt(0, 0) },
            Stroke::Line { from: Pt(0, 0), to: Pt(100, 0) },
        ],
        Some(80),
    );
    add_glyph(
        &mut glyphs,
        '0',
        vec![
            Stroke::Arc { center: Pt(50, 50), radius: 50, start: 0, end: 360 },
        ],
        Some(80),
    );
    add_glyph(
        &mut glyphs,
        '1',
        vec![
            Stroke::Line { from: Pt(50, 0), to: Pt(50, 100) },
        ],
        Some(30),
    );
    add_glyph(
        &mut glyphs,
        '2',
        vec![
            Stroke::Arc { center: Pt(50, 75), radius: 50, start: 0, end: 270 },
            Stroke::Line { from: Pt(50, 75), to: Pt(0, 0) },
        ],
        Some(80),
    );
    proof {
        assert(glyphs@[' ' as u32].strokes@ =~= glyph_strokes(' '));
        assert(glyphs@['g' as u32].strokes@ =~= glyph_strokes('g'));
        assert(glyphs@['e' as u32].strokes@ =~= glyph_strokes('e'));
        assert(glyphs@['n' as u32].strokes@ =~= glyph_strokes('n'));
        assert(glyphs@['u' as u32].strokes@ =~= glyph_strokes('u'));
        assert(glyphs@['r' as u32].strokes@ =~= glyph_strokes('r'));
        assert(glyphs@['a' as u32].strokes@ =~= glyph_strokes('a'));
        assert(glyphs@['y' as u32].strokes@ =~= glyph_strokes('y'));
        assert(glyphs@['b' as u32].strokes@ =~= glyph_strokes('b'));
        assert(glyphs@['c' as u32].strokes@ =~= glyph_strokes('c'));
        assert(glyphs@['d' as u32].strokes@ =~= glyph_strokes('d'));
        assert(glyphs@['f' as u32].strokes@ =~= glyph_strokes('f'));
        assert(glyphs@['h' as u32].strokes@ =~= glyph_strokes('h'));
        assert(glyphs@['i' as u32].strokes@ =~= glyph_strokes('i'));
        assert(glyphs@['j' as u32].strokes@ =~= glyph_strokes('j'));
        assert(glyphs@['k' as u32].strokes@ =~= glyph_strokes('k'));
        assert(glyphs@['l' as u32].strokes@ =~= glyph_strokes('l'));
        assert(glyphs@['m' as u32].strokes@ =~= glyph_strokes('m'));
        assert(glyphs@['o' as u32].strokes@ =~= glyph_strokes('o'));
        assert(glyphs@['p' as u32].strokes@ =~= glyph_strokes('p'));
        assert(glyphs@['q' as u32].strokes@ =~= glyph_strokes('q'));
        assert(glyphs@['s' as u32].strokes@ =~= glyph_strokes('s'));
        assert(glyphs@['t' as u32].strokes@ =~= glyph_strokes('t'));
        assert(glyphs@['v' as u32].strokes@ =~= glyph_strokes('v'));
        assert(glyphs@['w' as u32].strokes@ =~= glyph_strokes('w'));
        assert(glyphs@['x' as u32].strokes@ =~= glyph_strokes('x'));
        assert(glyphs@['z' as u32].strokes@ =~= glyph_strokes('z'));
        assert(glyphs@['0' as u32].strokes@ =~= glyph_strokes('0'));
        assert(glyphs@['1' as u32].strokes@ =~= glyph_strokes('1'));
        assert(glyphs@['2' as u32].strokes@ =~= glyph_strokes('2'));
    }
    glyphs
}

} // verus!
