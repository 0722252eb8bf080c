use reui::format::{GS8, GSA88, IDX2, RAW2, RGB888, RGBA8888};
use reui::image::{classify, pack_colors, unpack_indices, ColorFmt, UnsupportedFormat, PNG_PALETTE};
use reui::{PixelView, Point, Size, GS, GSA, RGB, RGBA};

#[test]
fn test_gs_2x2() {
    let bytes = pack_colors(GS8, &[GS::new(0), GS::new(130), GS::new(70), GS::new(255)]);
    let image = PixelView::new((GS8, &bytes[..]), Size::new(2, 2));

    assert_eq!(image.size(), Size::new(2, 2));
    assert_eq!(image.get(Point::new(0, 0)), GS::new(0));
    assert_eq!(image.get(Point::new(1, 0)), GS::new(130));
    assert_eq!(image.get(Point::new(0, 1)), GS::new(70));
    assert_eq!(image.get(Point::new(1, 1)), GS::new(255));
}

#[test]
fn test_gsa_2x2() {
    let pixels = [GSA::new(0, 255), GSA::new(119, 0), GSA::new(70, 128), GSA::new(255, 255)];
    let bytes = pack_colors(GSA88, &pixels);
    let image = PixelView::new((GSA88, &bytes[..]), Size::new(2, 2));

    assert_eq!(image.size(), Size::new(2, 2));
    assert_eq!(image.get(Point::new(0, 0)), GSA::new(0, 255));
    assert_eq!(image.get(Point::new(1, 0)), GSA::new(119, 0));
    assert_eq!(image.get(Point::new(0, 1)), GSA::new(70, 128));
    assert_eq!(image.get(Point::new(1, 1)), GSA::new(255, 255));
}

#[test]
fn test_rgb_2x2() {
    let pixels = [RGB::new(0, 0, 0), RGB::new(255, 0, 0), RGB::new(0, 0, 255), RGB::new(255, 255, 255)];
    let bytes = pack_colors(RGB888, &pixels);
    let image = PixelView::new((RGB888, &bytes[..]), Size::new(2, 2));

    assert_eq!(image.size(), Size::new(2, 2));
    assert_eq!(image.get(Point::new(0, 0)), RGB::new(0, 0, 0));
    assert_eq!(image.get(Point::new(1, 0)), RGB::new(255, 0, 0));
    assert_eq!(image.get(Point::new(0, 1)), RGB::new(0, 0, 255));
    assert_eq!(image.get(Point::new(1, 1)), RGB::new(255, 255, 255));
}

#[test]
fn test_rgba_2x2() {
    let pixels = [
        RGBA::new(0, 0, 0, 255),
        RGBA::new(255, 0, 0, 1),
        RGBA::new(0, 0, 255, 128),
        RGBA::new(255, 255, 255, 255),
    ];
    let bytes = pack_colors(RGBA8888, &pixels);
    let image = PixelView::new((RGBA8888, &bytes[..]), Size::new(2, 2));

    assert_eq!(image.size(), Size::new(2, 2));
    assert_eq!(image.get(Point::new(0, 0)), RGBA::new(0, 0, 0, 255));
    assert_eq!(image.get(Point::new(1, 0)), RGBA::new(255, 0, 0, 1));
    assert_eq!(image.get(Point::new(0, 1)), RGBA::new(0, 0, 255, 128));
    assert_eq!(image.get(Point::new(1, 1)), RGBA::new(255, 255, 255, 255));
}

fn indexed_image(palette: &[RGBA]) -> (Vec<u8>, Vec<u8>) {
    // four 2-bit indices 0, 1, 2, 3 as PNG stores them, high bits first
    let indices = unpack_indices(&[0b0001_1011], 4, 2);
    assert_eq!(indices, vec![0, 1, 2, 3]);
    (pack_colors(RGBA8888, palette), pack_colors(RAW2, &indices))
}

#[test]
fn test_idx_2x2() {
    let palette = [
        RGBA::new(0, 0, 0, 255),
        RGBA::new(255, 0, 0, 255),
        RGBA::new(0, 0, 255, 255),
        RGBA::new(255, 255, 255, 255),
    ];
    let (colors, bytes) = indexed_image(&palette);
    let image = PixelView::new((IDX2::new((RGBA8888, &colors[..])), &bytes[..]), Size::new(2, 2));

    assert_eq!(image.size(), Size::new(2, 2));
    assert_eq!(image.get(Point::new(0, 0)), RGBA::new(0, 0, 0, 255));
    assert_eq!(image.get(Point::new(1, 0)), RGBA::new(255, 0, 0, 255));
    assert_eq!(image.get(Point::new(0, 1)), RGBA::new(0, 0, 255, 255));
    assert_eq!(image.get(Point::new(1, 1)), RGBA::new(255, 255, 255, 255));
}

#[test]
fn test_idxa_2x2() {
    let palette = [
        RGBA::new(0, 0, 0, 255),
        RGBA::new(13, 123, 0, 0),
        RGBA::new(0, 0, 255, 255),
        RGBA::new(255, 255, 255, 255),
    ];
    let (colors, bytes) = indexed_image(&palette);
    let image = PixelView::new((IDX2::new((RGBA8888, &colors[..])), &bytes[..]), Size::new(2, 2));

    println!("{:?}", image.size());
    assert_eq!(image.size(), Size::new(2, 2));
    assert_eq!(image.get(Point::new(0, 0)), RGBA::new(0, 0, 0, 255));
    assert_eq!(image.get(Point::new(1, 0)), RGBA::new(13, 123, 0, 0));
    assert_eq!(image.get(Point::new(0, 1)), RGBA::new(0, 0, 255, 255));
    assert_eq!(image.get(Point::new(1, 1)), RGBA::new(255, 255, 255, 255));
}

#[test]
fn png_formats_are_classified() {
    assert_eq!(classify(0, 4, vec![]), Ok(ColorFmt::GS(4)));
    assert_eq!(classify(4, 8, vec![]), Ok(ColorFmt::GSA(8, 8)));
    assert_eq!(classify(2, 8, vec![]), Ok(ColorFmt::RGB(8, 8, 8)));
    assert_eq!(classify(6, 8, vec![]), Ok(ColorFmt::RGBA(8, 8, 8, 8)));
    let palette = vec![RGBA::new(1, 2, 3, 4)];
    assert_eq!(classify(PNG_PALETTE, 2, palette.clone()), Ok(ColorFmt::IDX(2, palette)));
    assert_eq!(classify(2, 16, vec![]), Err(UnsupportedFormat { color_type: 2, bits: 16 }));
    assert_eq!(classify(0, 3, vec![]), Err(UnsupportedFormat { color_type: 0, bits: 3 }));
}

#[test]
fn one_bit_indices_unpack_high_bit_first() {
    assert_eq!(unpack_indices(&[0b1010_0000, 0b0000_0001], 16, 1)[0], 1);
    assert_eq!(unpack_indices(&[0b1010_0000, 0b0000_0001], 16, 1)[1], 0);
    assert_eq!(unpack_indices(&[0b1010_0000, 0b0000_0001], 16, 1)[2], 1);
    assert_eq!(unpack_indices(&[0b1010_0000, 0b0000_0001], 16, 1)[15], 1);
    assert_eq!(unpack_indices(&[0x5a], 2, 4), vec![5, 10]);
}
