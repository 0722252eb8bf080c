use reui::format::BW1;
use reui::{Font, FontV1, FontV2, GlyphData, Point, Rect, Size};

#[test]
fn v1_font() {
    let codes = [0..=20, 32..=45];
    let glyphs = [GlyphData::new(Rect::new(Point::new(0, -1), Size::new(4, 6)), 0)];
    let pixels = [0, 1, 2, 3];
    let _font = FontV1::new(BW1, &codes, &glyphs, &pixels);
}

#[test]
fn v2_font() {
    let codes = [0..=20, 32..=45];
    let pixels = [0, 1, 2, 3];
    let _font = FontV2::new(BW1, &codes, Rect::new(Point::new(0, -1), Size::new(4, 6)), &pixels);
}

#[test]
fn glyphs_follow_code_ranges() {
    let codes = [48..=57, 65..=70];
    let pixels = [0u8; 48];
    let font = FontV2::new(BW1, &codes, Rect::new(Point::new(0, -1), Size::new(4, 6)), &pixels);

    assert_eq!(font.len(), 16);
    assert_eq!(font.glyph('0'), Some(0));
    assert_eq!(font.glyph('9'), Some(9));
    assert_eq!(font.glyph('A'), Some(10));
    assert_eq!(font.glyph('F'), Some(15));
    assert_eq!(font.glyph('G'), None);
    assert_eq!(font.glyph(' '), None);
    assert_eq!(font.glyph('.'), None);
}

#[test]
fn glyph_pixels_start_at_their_offset() {
    let codes = [65..=66];
    let glyphs = [
        GlyphData::new(Rect::new(Point::new(0, 0), Size::new(2, 2)), 0),
        GlyphData::new(Rect::new(Point::new(0, 0), Size::new(8, 1)), 1),
    ];
    let pixels = [0b0000_0110, 0b1000_0001];
    let font = FontV1::new(BW1, &codes, &glyphs, &pixels);

    assert_eq!(font.len(), 2);
    assert_eq!(font.glyph('B'), Some(1));
    assert_eq!(font.rect(1), Rect::new(Point::new(0, 0), Size::new(8, 1)));

    let first = font.pixels(0);
    assert_eq!(first.size(), Size::new(2, 2));
    assert_eq!(first.get(Point::new(0, 0)).v, false);
    assert_eq!(first.get(Point::new(1, 0)).v, true);
    assert_eq!(first.get(Point::new(0, 1)).v, true);
    assert_eq!(first.get(Point::new(1, 1)).v, false);

    let second = font.pixels(1);
    assert_eq!(second.get(Point::new(0, 0)).v, true);
    assert_eq!(second.get(Point::new(1, 0)).v, false);
    assert_eq!(second.get(Point::new(7, 0)).v, true);
}

#[test]
fn shared_rect_glyphs_are_stored_one_after_another() {
    let codes = [97..=99];
    let pixels = [0x00, 0x0f, 0xf0];
    let font = FontV2::new(BW1, &codes, Rect::new(Point::new(0, 0), Size::new(4, 2)), &pixels);

    assert_eq!(font.len(), 3);
    let b = font.pixels(font.glyph('b').unwrap());
    assert_eq!(b.get(Point::new(0, 0)).v, true);
    assert_eq!(b.get(Point::new(0, 1)).v, false);
    let c = font.pixels(2);
    assert_eq!(c.get(Point::new(0, 0)).v, false);
    assert_eq!(c.get(Point::new(0, 1)).v, true);
}
