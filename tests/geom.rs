use reui::Area;

#[test]
fn empty() {
    assert_eq!(Area::from((0, 1, 2, 3)).is_empty(), false);
    assert_eq!(Area::from((2, 1, 0, 3)).is_empty(), true);
    assert_eq!(Area::from((2, 1, 2, 3)).is_empty(), true);
    assert_eq!(Area::from((0, 3, 2, 1)).is_empty(), true);
    assert_eq!(Area::from((0, 1, 2, 1)).is_empty(), true);
}

#[test]
fn and() {
    assert_eq!(Area::from((0, 1, 2, 3)) & Area::from((0, 1, 2, 3)), Area::from((0, 1, 2, 3)));
    assert_eq!(Area::from((0, 1, 2, 3)) & Area::from((1, 2, 2, 3)), Area::from((1, 2, 2, 3)));
    assert_eq!(Area::from((1, 2, 2, 3)) & Area::from((0, 1, 2, 3)), Area::from((1, 2, 2, 3)));
    assert_eq!(Area::from((1, 2, 3, 4)) & Area::from((2, 3, 2, 3)), Area::from((2, 3, 2, 3)));
}

#[test]
fn or() {
    assert_eq!(Area::from((0, 1, 2, 3)) | Area::from((0, 1, 2, 3)), Area::from((0, 1, 2, 3)));
    assert_eq!(Area::from((0, 1, 2, 3)) | Area::from((1, 2, 2, 3)), Area::from((0, 1, 2, 3)));
    assert_eq!(Area::from((1, 2, 2, 3)) | Area::from((0, 1, 2, 3)), Area::from((0, 1, 2, 3)));
    assert_eq!(Area::from((1, 2, 3, 4)) | Area::from((2, 3, 2, 3)), Area::from((1, 2, 3, 4)));
}
