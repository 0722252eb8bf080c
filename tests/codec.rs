use reui::format::{BW1, GS1, GS2};
use reui::{ColorFmt, ColorGet, ColorSet};

#[test]
fn bw1_get() {
    let buf = [1, 2, 0];

    assert_eq!(BW1.num_colors(&buf), 8 * 3);
    assert_eq!(BW1.get_color(&buf, 0), true.into());
    assert_eq!(BW1.get_color(&buf, 1), false.into());
    assert_eq!(BW1.get_color(&buf, 2), false.into());
    assert_eq!(BW1.get_color(&buf, 8), false.into());
    assert_eq!(BW1.get_color(&buf, 9), true.into());
    assert_eq!(BW1.get_color(&buf, 10), false.into());
}

#[test]
fn bw1_set() {
    let mut buf = [1, 2, 0];

    assert_eq!(BW1.num_colors(&buf), 8 * 3);
    assert_eq!(BW1.get_color(&buf, 0), true.into());
    assert_eq!(BW1.get_color(&buf, 1), false.into());
    assert_eq!(BW1.get_color(&buf, 2), false.into());
    assert_eq!(BW1.get_color(&buf, 8), false.into());
    assert_eq!(BW1.get_color(&buf, 9), true.into());
    assert_eq!(BW1.get_color(&buf, 10), false.into());

    BW1.set_color(&mut buf, 0, false.into());
    BW1.set_color(&mut buf, 1, true.into());
    BW1.set_color(&mut buf, 8, false.into());
    BW1.set_color(&mut buf, 9, true.into());

    assert_eq!(BW1.get_color(&buf, 0), false.into());
    assert_eq!(BW1.get_color(&buf, 1), true.into());
    assert_eq!(BW1.get_color(&buf, 2), false.into());
    assert_eq!(BW1.get_color(&buf, 8), false.into());
    assert_eq!(BW1.get_color(&buf, 9), true.into());
    assert_eq!(BW1.get_color(&buf, 10), false.into());
    assert_eq!(&buf, &[2, 2, 0]);

    BW1.set_color(&mut buf, 8, true.into());
    BW1.set_color(&mut buf, 9, false.into());

    assert_eq!(BW1.get_color(&buf, 0), false.into());
    assert_eq!(BW1.get_color(&buf, 1), true.into());
    assert_eq!(BW1.get_color(&buf, 2), false.into());
    assert_eq!(BW1.get_color(&buf, 8), true.into());
    assert_eq!(BW1.get_color(&buf, 9), false.into());
    assert_eq!(BW1.get_color(&buf, 10), false.into());
    assert_eq!(&buf, &[2, 1, 0]);
}

#[test]
fn gs1_get() {
    let buf = [1, 6];

    assert_eq!(GS1.num_colors(&buf), 16);
    assert_eq!(GS1.get_color(&buf, 0), 255.into());
    for i in 1..9 {
        assert_eq!(GS1.get_color(&buf, i), 0.into());
    }
    assert_eq!(GS1.get_color(&buf, 9), 255.into());
    assert_eq!(GS1.get_color(&buf, 10), 255.into());
    for i in 11..16 {
        assert_eq!(GS1.get_color(&buf, i), 0.into());
    }
}

#[test]
fn gs1_set() {
    let mut buf = [1, 6];

    assert_eq!(GS1.num_colors(&mut buf), 16);

    GS1.set_color(&mut buf, 0, 0.into());
    GS1.set_color(&mut buf, 1, 255.into());
    GS1.set_color(&mut buf, 8, 255.into());
    GS1.set_color(&mut buf, 9, 0.into());

    assert_eq!(&buf, &[2, 5]);
}

#[test]
fn gs2_get() {
    let buf = [1, 131];

    assert_eq!(GS2.num_colors(&buf), 8);
    assert_eq!(GS2.get_color(&buf, 0), 85.into());
    for i in 1..4 {
        assert_eq!(GS2.get_color(&buf, i), 0.into());
    }
    assert_eq!(GS2.get_color(&buf, 4), 255.into());
    for i in 5..7 {
        assert_eq!(GS2.get_color(&buf, i), 0.into());
    }
    assert_eq!(GS2.get_color(&buf, 7), 170.into());
}

#[test]
fn gs2_set() {
    let mut buf = [1, 131];

    assert_eq!(GS2.num_colors(&mut buf), 8);

    GS2.set_color(&mut buf, 0, 0.into());
    GS2.set_color(&mut buf, 1, 255.into());
    GS2.set_color(&mut buf, 4, 175.into());
    GS2.set_color(&mut buf, 7, 90.into());

    assert_eq!(&buf, &[12, 66]);
}
