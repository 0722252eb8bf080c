use reui::format::{RGB332, RGB565, RGB888};
use reui::{ColorArray, PixelView, Point, Size, RGB};

static IMAGE_DATA: [u8; 4] = [1, 97, 186, 44];

#[test]
fn test_image() {
    let image = PixelView::new((RGB332, &IMAGE_DATA[..]), Size::new(2, 2));

    assert_eq!(image.get(Point::new(0, 0)), RGB::new(0, 0, 85));
    assert_eq!(image.get(Point::new(1, 0)), RGB::new(108, 0, 85));
    assert_eq!(image.get(Point::new(0, 1)), RGB::new(180, 216, 170));
    assert_eq!(image.get(Point::new(1, 1)), RGB::new(36, 108, 0));
}

#[test]
fn test_rgb888() {
    let (width, height) = (128usize, 162usize);

    let mut data = ColorArray::new_with_format(RGB888, width * height);
    let mut view = PixelView::new(&mut data, Size::new(width, height));

    let size = view.size();

    assert_eq!(size, (width, height).into());

    let colors = [
        RGB::new(0, 0, 248),
        RGB::new(0, 252, 72),
        RGB::new(56, 16, 0),
        RGB::new(136, 192, 88),
        RGB::new(164, 132, 200),
        RGB::new(20, 208, 24),
    ];

    let mut c = 0;

    for _ in 0..11 {
        for x in 0..size.w {
            for y in 0..size.h {
                let coord = (x, y).into();
                let color = colors[c];
                view.set(coord, color);
                assert_eq!(view.get(coord), color);
                c += 1;
                if c == colors.len() {
                    c = 0;
                }
            }
        }
    }
}

#[test]
fn test_rgb565() {
    let (width, height) = (128usize, 162usize);

    let mut data = ColorArray::new_with_format(RGB565, width * height);
    let mut view = PixelView::new(&mut data, Size::new(width, height));

    let size = view.size();

    assert_eq!(size, (width, height).into());

    let colors = [
        RGB::new(0, 0, 248),
        RGB::new(0, 252, 72),
        RGB::new(56, 16, 0),
        RGB::new(136, 192, 88),
        RGB::new(160, 132, 200),
        RGB::new(24, 208, 24),
    ];

    let mut c = 0;

    for _ in 0..11 {
        for x in 0..size.w {
            for y in 0..size.h {
                let coord = (x, y).into();
                let color = colors[c];
                view.set(coord, color);
                assert_eq!(view.get(coord), color);
                c += 1;
                if c == colors.len() {
                    c = 0;
                }
            }
        }
    }
}

#[test]
fn owned_view_gives_its_buffer_back() {
    let view = PixelView::new(ColorArray::new_with_format(RGB332, 6), Size::new(3, 2));
    let mut view = view.with_size(Size::new(2, 3));
    view.set(Point::new(1, 2), RGB::new(36, 72, 85));
    assert_eq!(view.size(), Size::new(2, 3));
    let data = view.unwrap();
    assert_eq!(data.as_bytes(), &[0, 0, 0, 0, 0, 0b0010_1001]);
    let empty = PixelView::wrap((RGB332, &IMAGE_DATA[..]));
    assert_eq!(empty.size(), Size::new(0, 0));
    assert_eq!(empty.get(Point::new(3, 0)), RGB::new(36, 108, 0));
}
