use video_mosaic::letters::define_glyphs;
use video_mosaic::types::{Pt, Stroke};

#[test]
fn font_has_thirty_glyphs_keyed_by_code_point() {
    let glyphs = define_glyphs();
    assert_eq!(glyphs.len(), 30);
    for (key, glyph) in glyphs.iter() {
        assert_eq!(*key, glyph.ch as u32);
    }
    for c in " geunraybcdfhijklmopqstvwxz012".chars() {
        assert!(glyphs.contains_key(&(c as u32)), "missing {}", c);
    }
    assert!(!glyphs.contains_key(&('Q' as u32)));
}

#[test]
fn space_is_empty() {
    let glyphs = define_glyphs();
    let space = &glyphs[&(' ' as u32)];
    assert!(space.strokes.is_empty());
    assert_eq!(space.width_restriction, None);
}

#[test]
fn letter_x_is_two_crossing_lines() {
    let glyphs = define_glyphs();
    let x = &glyphs[&('x' as u32)];
    assert_eq!(
        x.strokes,
        vec![
            Stroke::Line { from: Pt(0, 0), to: Pt(100, 100) },
            Stroke::Line { from: Pt(0, 100), to: Pt(100, 0) },
        ]
    );
    assert_eq!(x.width_restriction, None);
}

#[test]
fn letter_r_is_restricted_to_a_tenth() {
    let glyphs = define_glyphs();
    let r = &glyphs[&('r' as u32)];
    assert_eq!(r.width_restriction, Some(10));
    assert_eq!(
        r.strokes,
        vec![
            Stroke::Line { from: Pt(0, 0), to: Pt(0, 100) },
            Stroke::Arc { center: Pt(0, 50), radius: 50, start: 0, end: 90 },
        ]
    );
}

#[test]
fn letter_m_has_five_strokes() {
    let glyphs = define_glyphs();
    let m = &glyphs[&('m' as u32)];
    assert_eq!(m.strokes.len(), 5);
    assert_eq!(m.strokes[3], Stroke::Arc { center: Pt(25, 100), radius: 25, start: 180, end: 0 });
}
