use reui::attr::{EmbeddedItem, EmbeddedType};

fn parse(text: &str) -> Option<EmbeddedItem> {
    let chars: Vec<char> = text.chars().collect();
    EmbeddedItem::parse(&chars)
}

fn name(item: &EmbeddedItem) -> String {
    item.ident.iter().collect()
}

#[test]
fn item_no_value() {
    assert!(parse(r#"static MONOSPACE: Font"#).is_none());
}

#[test]
fn item_no_chars() {
    let item = parse(r#"static MONOSPACE: Font = ();"#).unwrap();

    assert_eq!(name(&item), "MONOSPACE");
    assert_eq!(item.chars.len(), 0);
}

#[test]
fn item_single_char() {
    let item = parse(r#"pub static MONOSPACE: Font = ('a');"#).unwrap();

    assert_eq!(name(&item), "MONOSPACE");
    assert_eq!(item.chars.len(), 1);
    assert_eq!(item.chars[0].range(), 'a'..='a');
}

#[test]
fn item_single_char_range_inclusive() {
    let item = parse(r#"static MONOSPACE: Font = ('a'..='z');"#).unwrap();

    assert_eq!(name(&item), "MONOSPACE");
    assert_eq!(item.chars.len(), 1);
    assert_eq!(item.chars[0].range(), 'a'..='z');
}

#[test]
fn item_single_char_range_exclusive() {
    let item = parse(r#"static MONOSPACE: Font = ('a'..'z');"#).unwrap();

    assert_eq!(name(&item), "MONOSPACE");
    assert_eq!(item.chars.len(), 1);
    assert_eq!(item.chars[0].range(), 'a'..='y');
}

#[test]
fn item_two_char_ranges() {
    let item = parse(r#"pub static MONOSPACE: Font = ('a'..'z', 'A' ..= 'Z');"#).unwrap();

    assert_eq!(name(&item), "MONOSPACE");
    assert_eq!(item.chars.len(), 2);
    assert_eq!(item.chars[0].range(), 'a'..='y');
    assert_eq!(item.chars[1].range(), 'A'..='Z');
}

#[test]
fn item_two_chars_and_two_char_ranges() {
    let item = parse(r#"static MONOSPACE: Font = (',', ';', 'a'..'z', 'A' ..= 'Z');"#).unwrap();

    assert_eq!(name(&item), "MONOSPACE");
    assert_eq!(item.chars.len(), 4);
    assert_eq!(item.chars[0].range(), ','..=',');
    assert_eq!(item.chars[1].range(), ';'..=';');
    assert_eq!(item.chars[2].range(), 'a'..='y');
    assert_eq!(item.chars[3].range(), 'A'..='Z');
}

#[test]
fn item_two_chars_and_two_char_ranges_unordered() {
    let item = parse(r#"pub static MONOSPACE: Font = ('a'..'z', ',', ';', 'A' ..= 'Z');"#).unwrap();

    assert_eq!(name(&item), "MONOSPACE");
    assert_eq!(item.chars.len(), 4);
    assert_eq!(item.chars[0].range(), 'a'..='y');
    assert_eq!(item.chars[1].range(), ','..=',');
    assert_eq!(item.chars[2].range(), ';'..=';');
    assert_eq!(item.chars[3].range(), 'A'..='Z');
}

#[test]
fn item_empty_value() {
    let item = parse(r#"static IMAGE: Image = ();"#).unwrap();

    assert_eq!(name(&item), "IMAGE");
    assert_eq!(item.ty, EmbeddedType::Image);
}

#[test]
fn image_item_needs_a_value() {
    assert!(parse(r#"static IMAGE: Image"#).is_none());
    assert!(parse(r#"static IMAGE: Image = ('a');"#).is_none());
}

#[test]
fn item_keywords_and_types() {
    let item = parse("  pub static mut GLYPHS : Font = ( 'a' , ) ;  ").unwrap();
    assert!(item.public);
    assert!(item.mutable);
    assert_eq!(name(&item), "GLYPHS");
    assert_eq!(item.ty, EmbeddedType::Font);
    assert_eq!(item.chars.len(), 1);

    let item = parse("static staticky: Font = ();").unwrap();
    assert!(!item.public && !item.mutable);
    assert_eq!(name(&item), "staticky");

    assert!(parse("static X: Fonts = ();").is_none());
    assert!(parse("publ static X: Font = ();").is_none());
    assert!(parse("static X: Font = ();;").is_none());
    assert!(parse("static X: Font = ('a' 'b');").is_none());
}
