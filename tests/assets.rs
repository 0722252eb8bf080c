use reui::font_data::{
    char_in_chars, code_ranges, glyph_bits, int_type_for_range, uint_type_for_value, FontChars,
    FontData, GlyphData, IntType, Rect, UintType,
};
use reui::format::GS4;
use reui::image::{encode_image, ColorData, ColorFmt};
use reui::{ColorGet, GS, RGB};

fn glyph(x: i32, y: i32, w: i32, h: i32, off: usize) -> GlyphData {
    GlyphData { rect: Rect { x, y, w, h }, off }
}

#[test]
fn font_tables_are_summarized() {
    let data = FontData {
        codes: vec![32..=33, 48..=50],
        glyphs: vec![glyph(0, -1, 4, 6, 0), glyph(0, -1, 4, 6, 3), glyph(1, -2, 3, 5, 6)],
        pixels: vec![0; 9],
    };
    assert_eq!(data.rect_kinds(), vec![Rect { x: 0, y: -1, w: 4, h: 6 }, Rect { x: 1, y: -2, w: 3, h: 5 }]);
    assert_eq!(data.shared_rect(), None);
    assert_eq!(data.dim_range(), Some(-2..=6));
    assert_eq!(data.max_off(), Some(6));
    assert_eq!(data.max_code(), Some(50));

    let empty = FontData { codes: vec![], glyphs: vec![], pixels: vec![] };
    assert!(empty.rect_kinds().is_empty());
    assert_eq!(empty.shared_rect(), None);
    assert_eq!(empty.dim_range(), None);
    assert_eq!(empty.max_off(), None);
    assert_eq!(empty.max_code(), None);

    let mono = FontData { codes: vec![65..=66], glyphs: vec![glyph(0, 0, 4, 6, 0), glyph(0, 0, 4, 6, 3)], pixels: vec![0; 6] };
    assert_eq!(mono.shared_rect(), Some(Rect { x: 0, y: 0, w: 4, h: 6 }));
}

#[test]
fn sorted_codes_group_into_runs() {
    assert_eq!(code_ranges(&[]), vec![]);
    assert_eq!(code_ranges(&[7]), vec![7..=7]);
    assert_eq!(code_ranges(&[32, 33, 34, 48, 50, 51]), vec![32..=34, 48..=48, 50..=51]);
}

#[test]
fn requested_chars_select() {
    assert!(char_in_chars('q', &[]));
    assert!(char_in_chars('q', &['a'..='z']));
    assert!(!char_in_chars('Q', &['a'..='z', '0'..='9']));
    assert!(char_in_chars('5', &['a'..='z', '0'..='9']));
}

#[test]
fn font_char_ranges() {
    assert_eq!(FontChars::Char('a').range(), 'a'..='a');
    assert_eq!(FontChars::Range('a', 'z', true).range(), 'a'..='z');
    assert_eq!(FontChars::Range('a', 'z', false).range(), 'a'..='y');
}

#[test]
fn glyph_bitmaps_pack_low_bit_first() {
    let map = [true, false, false, true, false, false, false, false, true, true];
    assert_eq!(glyph_bits(&map), vec![0b0000_1001, 0b0000_0011]);
    assert_eq!(glyph_bits(&[]), Vec::<u8>::new());
}

#[test]
fn table_types_are_the_smallest_that_fit() {
    assert_eq!(uint_type_for_value(255), UintType::U8);
    assert_eq!(uint_type_for_value(256), UintType::U16);
    assert_eq!(uint_type_for_value(70000), UintType::U32);
    assert_eq!(int_type_for_range(-128..=127), IntType::I8);
    assert_eq!(int_type_for_range(-129..=0), IntType::I16);
    assert_eq!(int_type_for_range(0..=40000), IntType::I32);
}

#[test]
fn images_encode_in_their_format() {
    let pixels = ColorData::GS(vec![GS::new(0), GS::new(255), GS::new(0x44)]);
    let bytes = encode_image(&ColorFmt::GS(4), &pixels).unwrap();
    assert_eq!(bytes, vec![0xf0, 0x04]);
    assert_eq!(GS4.get_color(&bytes, 2), GS::new(0x44));

    let indices = ColorData::IDX(vec![1, 0, 1, 1]);
    assert_eq!(encode_image(&ColorFmt::IDX(1, vec![]), &indices), Some(vec![0b1101]));

    let rgb = ColorData::RGB(vec![RGB::new(1, 2, 3)]);
    assert_eq!(encode_image(&ColorFmt::RGB(8, 8, 8), &rgb), Some(vec![1, 2, 3]));
    assert_eq!(encode_image(&ColorFmt::RGB(6, 6, 6), &rgb), None);
    assert_eq!(encode_image(&ColorFmt::GS(8), &rgb), None);
}
