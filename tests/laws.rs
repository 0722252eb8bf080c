use reui::format::{GS2, GS4, GS8, IDX2, RGB332, RGB444, RGB565, RGBA5551, RGBA8888, BW1, GSA22, GSA31};
use reui::{ColorArray, ColorBuf, ColorBufMut, ColorFmt, ColorGet, ColorSet, GS, GSA, RGB, RGBA};

#[test]
fn exact_colors_read_back_as_written() {
    let mut buf = [0u8; 6];
    for v in [0u8, 85, 170, 255] {
        for i in 0..24 {
            GS2.set_color(&mut buf, i, GS::new(v));
            assert_eq!(GS2.get_color(&buf, i), GS::new(v));
        }
    }
    for c in [RGB::new(0, 0, 0), RGB::new(36, 216, 170), RGB::new(252, 252, 255)] {
        RGB332.set_color(&mut buf, 3, c);
        assert_eq!(RGB332.get_color(&buf, 3), c);
    }
    for c in [RGB::new(17, 34, 255), RGB::new(0, 238, 51)] {
        RGB444.set_color(&mut buf, 1, c);
        assert_eq!(RGB444.get_color(&buf, 1), c);
        RGB444.set_color(&mut buf, 2, c);
        assert_eq!(RGB444.get_color(&buf, 2), c);
    }
    let c = GSA::new(170, 85);
    GSA22.set_color(&mut buf, 5, c);
    assert_eq!(GSA22.get_color(&buf, 5), c);
    let c = GSA::new(252, 255);
    GSA31.set_color(&mut buf, 4, c);
    assert_eq!(GSA31.get_color(&buf, 4), c);
}

#[test]
fn lossy_colors_keep_their_top_bits() {
    let mut buf = [0u8; 2];
    RGB565.set_color(&mut buf, 0, RGB::new(255, 255, 255));
    assert_eq!(buf, [0xff, 0xff]);
    assert_eq!(RGB565.get_color(&buf, 0), RGB::new(248, 252, 248));
    GS4.set_color(&mut buf, 3, GS::new(0x9f));
    assert_eq!(GS4.get_color(&buf, 3), GS::new(0x99));
}

#[test]
fn fixed_capacity_is_rounded_up_to_whole_bytes() {
    assert_eq!(ColorArray::new_with_format(BW1, 9).as_bytes().len(), 2);
    assert_eq!(ColorArray::new_with_format(GS2, 5).as_bytes().len(), 2);
    assert_eq!(ColorArray::new_with_format(RGB444, 3).as_bytes().len(), 5);
    assert_eq!(ColorArray::new_with_format(RGB444, 4).as_bytes().len(), 6);
    assert_eq!(ColorArray::new_with_format(RGBA8888, 2).as_bytes().len(), 8);
    assert_eq!(ColorArray::new_with_format(GS8, 0).as_bytes().len(), 0);
    assert_eq!(ColorArray::new_with_format(RGB444, 3).len(), 3);
}

#[test]
fn filled_buffer_holds_the_color_everywhere() {
    let array = ColorArray::new(GS4, 5, GS::new(0x77));
    assert_eq!(array.as_bytes(), &[0x77, 0x77, 0x77]);
    for i in 0..array.len() {
        assert_eq!(array.get(i), GS::new(0x77));
    }
    let mut array = ColorArray::new(RGBA8888, 2, RGBA::default());
    assert_eq!(array.get(1), RGBA::new(0, 0, 0, 255));
    array.set(0, RGBA::new(1, 2, 3, 4));
    assert_eq!(array.as_bytes(), &[1, 2, 3, 4, 0, 0, 0, 255]);
}

#[test]
fn neighbours_in_a_byte_are_left_alone() {
    let mut buf = [0b1110_0100u8];
    GS2.set_color(&mut buf, 1, GS::new(255));
    assert_eq!(GS2.get_color(&buf, 0), GS::new(0));
    assert_eq!(GS2.get_color(&buf, 1), GS::new(255));
    assert_eq!(GS2.get_color(&buf, 2), GS::new(170));
    assert_eq!(GS2.get_color(&buf, 3), GS::new(255));

    let mut bytes = [0xab, 0xcd, 0xef];
    RGB444.set_color(&mut bytes, 0, RGB::new(0, 0, 0));
    assert_eq!(bytes, [0x00, 0x0d, 0xef]);
    RGB444.set_color(&mut bytes, 1, RGB::new(255, 255, 255));
    assert_eq!(bytes, [0x00, 0x0f, 0xff]);
}

#[test]
fn unmatched_palette_color_leaves_the_buffer() {
    let palette = [0, 0, 0, 255, 255, 0, 0, 255];
    let format = IDX2::new((RGBA8888, &palette[..]));
    let mut buf = [0b0000_0100u8];
    format.set_color(&mut buf, 2, RGBA::new(0, 255, 0, 255));
    assert_eq!(buf, [0b0000_0100]);
    format.set_color(&mut buf, 2, RGBA::new(255, 0, 0, 255));
    assert_eq!(buf, [0b0001_0100]);
    assert_eq!(format.get_color(&buf, 2), RGBA::new(255, 0, 0, 255));
    format.set_color(&mut buf, 1, RGBA::new(0, 0, 0, 255));
    assert_eq!(buf, [0b0001_0000]);
    assert_eq!(format.num_colors(&buf), 4);
}

#[test]
fn rgb332_decodes_by_the_scale_table() {
    let buf = [0x24u8];
    assert_eq!(RGB332.get_color(&buf, 0), RGB::new(36, 36, 0));
    let buf = [0b1110_0011u8];
    assert_eq!(RGB332.get_color(&buf, 0), RGB::new(252, 0, 255));
}

#[test]
fn rgba5551_keeps_one_alpha_bit() {
    let mut buf = [0u8; 2];
    RGBA5551.set_color(&mut buf, 0, RGBA::new(255, 0, 0, 1));
    assert_eq!(buf, [0b1111_1000, 0]);
    assert_eq!(RGBA5551.get_color(&buf, 0), RGBA::new(248, 0, 0, 0));
    RGBA5551.set_color(&mut buf, 0, RGBA::new(248, 0, 0, 255));
    assert_eq!(buf, [0b1111_1000, 1]);
    assert_eq!(RGBA5551.get_color(&buf, 0), RGBA::new(248, 0, 0, 255));
    RGBA5551.set_color(&mut buf, 0, RGBA::new(0, 255, 8, 0));
    assert_eq!(buf, [0b0000_0111, 0b1100_0010]);
    assert_eq!(RGBA5551.get_color(&buf, 0), RGBA::new(0, 248, 8, 0));
}

#[test]
fn colors_convert_with_fixed_arithmetic() {
    let gs: GS = RGB::new(10, 20, 31).into();
    assert_eq!(gs, GS::new(20));
    let gs: GS = RGB::new(255, 255, 254).into();
    assert_eq!(gs, GS::new(254));
    let rgba: RGBA = GS::new(7).into();
    assert_eq!(rgba, RGBA::new(7, 7, 7, 255));
    let gsa: GSA = RGBA::new(3, 6, 9, 40).into();
    assert_eq!(gsa, GSA::new(6, 40));
    let rgba: RGBA = GSA::new(9, 1).into();
    assert_eq!(rgba, RGBA::new(9, 9, 9, 1));
    let rgb: RGB = RGBA::new(1, 2, 3, 4).into();
    assert_eq!(rgb, RGB::new(1, 2, 3));
    let v: u8 = RGBA::new(0, 0, 3, 4).into();
    assert_eq!(v, 1);
    assert_eq!(GSA::default(), GSA::new(0, 255));
    assert_eq!(RGB::default(), RGB::new(0, 0, 0));
    assert_eq!(GS::default(), GS::new(0));
}
