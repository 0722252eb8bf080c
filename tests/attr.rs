use reui::attr::{FontAttr, FontParams};

fn chars(text: &str) -> Vec<char> {
    text.chars().collect()
}

fn text(chars: &[char]) -> String {
    chars.iter().collect()
}

#[test]
fn attr_no_chars() {
    let params = FontAttr::parse(&chars(r#""path/to/monospace.bdf""#)).unwrap();

    assert_eq!(text(&params.path), "path/to/monospace.bdf");
    assert_eq!(params.chars.len(), 0);
}

#[test]
fn attr_single_char() {
    let params = FontAttr::parse(&chars(r#""path/to/monospace.bdf", 'a'"#)).unwrap();

    assert_eq!(text(&params.path), "path/to/monospace.bdf");
    assert_eq!(params.chars.len(), 1);
    assert_eq!(params.chars[0].range(), 'a'..='a');
}

#[test]
fn attr_single_char_range_inclusive() {
    let params = FontAttr::parse(&chars(r#""path/to/monospace.bdf", 'a'..='z'"#)).unwrap();

    assert_eq!(text(&params.path), "path/to/monospace.bdf");
    assert_eq!(params.chars.len(), 1);
    assert_eq!(params.chars[0].range(), 'a'..='z');
}

#[test]
fn attr_single_char_range_exclusive() {
    let params = FontAttr::parse(&chars(r#""path/to/monospace.bdf", 'a'..'z'"#)).unwrap();

    assert_eq!(text(&params.path), "path/to/monospace.bdf");
    assert_eq!(params.chars.len(), 1);
    assert_eq!(params.chars[0].range(), 'a'..='y');
}

#[test]
fn attr_two_char_ranges() {
    let params = FontAttr::parse(&chars(r#""path/to/monospace.bdf", 'a'..'z', 'A' ..= 'Z'"#)).unwrap();

    assert_eq!(text(&params.path), "path/to/monospace.bdf");
    assert_eq!(params.chars.len(), 2);
    assert_eq!(params.chars[0].range(), 'a'..='y');
    assert_eq!(params.chars[1].range(), 'A'..='Z');
}

#[test]
fn attr_two_chars_and_two_char_ranges() {
    let params =
        FontAttr::parse(&chars(r#""path/to/monospace.bdf", ',', ';', 'a'..'z', 'A' ..= 'Z'"#)).unwrap();

    assert_eq!(text(&params.path), "path/to/monospace.bdf");
    assert_eq!(params.chars.len(), 4);
    assert_eq!(params.chars[0].range(), ','..=',');
    assert_eq!(params.chars[1].range(), ';'..=';');
    assert_eq!(params.chars[2].range(), 'a'..='y');
    assert_eq!(params.chars[3].range(), 'A'..='Z');
}

#[test]
fn attr_two_chars_and_two_char_ranges_unordered() {
    let params =
        FontAttr::parse(&chars(r#""path/to/monospace.bdf", 'a'..'z', ',', ';', 'A' ..= 'Z'"#)).unwrap();

    assert_eq!(text(&params.path), "path/to/monospace.bdf");
    assert_eq!(params.chars.len(), 4);
    assert_eq!(params.chars[0].range(), 'a'..='y');
    assert_eq!(params.chars[1].range(), ','..=',');
    assert_eq!(params.chars[2].range(), ';'..=';');
    assert_eq!(params.chars[3].range(), 'A'..='Z');
}

#[test]
fn ident_only() {
    assert!(FontParams::parse(&chars(r#"monospace"#)).is_none());
}

#[test]
fn params_no_chars() {
    let params = FontParams::parse(&chars(r#"monospace, "path/to/monospace.bdf""#)).unwrap();

    assert_eq!(text(&params.name), "monospace");
    assert_eq!(text(&params.path), "path/to/monospace.bdf");
    assert_eq!(params.chrs.len(), 0);
}

#[test]
fn params_single_char() {
    let params = FontParams::parse(&chars(r#"monospace, "path/to/monospace.bdf", 'a'"#)).unwrap();

    assert_eq!(text(&params.name), "monospace");
    assert_eq!(text(&params.path), "path/to/monospace.bdf");
    assert_eq!(params.chrs.len(), 1);
    assert_eq!(params.chrs[0].range(), 'a'..='a');
}

#[test]
fn params_single_char_range_inclusive() {
    let params = FontParams::parse(&chars(r#"monospace, "path/to/monospace.bdf", 'a'..='z'"#)).unwrap();

    assert_eq!(text(&params.name), "monospace");
    assert_eq!(text(&params.path), "path/to/monospace.bdf");
    assert_eq!(params.chrs.len(), 1);
    assert_eq!(params.chrs[0].range(), 'a'..='z');
}

#[test]
fn params_single_char_range_exclusive() {
    let params = FontParams::parse(&chars(r#"monospace, "path/to/monospace.bdf", 'a'..'z'"#)).unwrap();

    assert_eq!(text(&params.name), "monospace");
    assert_eq!(text(&params.path), "path/to/monospace.bdf");
    assert_eq!(params.chrs.len(), 1);
    assert_eq!(params.chrs[0].range(), 'a'..='y');
}

#[test]
fn params_two_char_ranges() {
    let params =
        FontParams::parse(&chars(r#"monospace, "path/to/monospace.bdf", 'a'..'z', 'A' ..= 'Z'"#)).unwrap();

    assert_eq!(text(&params.name), "monospace");
    assert_eq!(text(&params.path), "path/to/monospace.bdf");
    assert_eq!(params.chrs.len(), 2);
    assert_eq!(params.chrs[0].range(), 'a'..='y');
    assert_eq!(params.chrs[1].range(), 'A'..='Z');
}

#[test]
fn params_two_chars_and_two_char_ranges() {
    let params = FontParams::parse(&chars(
        r#"monospace, "path/to/monospace.bdf", ',', ';', 'a'..'z', 'A' ..= 'Z'"#,
    ))
    .unwrap();

    assert_eq!(text(&params.name), "monospace");
    assert_eq!(text(&params.path), "path/to/monospace.bdf");
    assert_eq!(params.chrs.len(), 4);
    assert_eq!(params.chrs[0].range(), ','..=',');
    assert_eq!(params.chrs[1].range(), ';'..=';');
    assert_eq!(params.chrs[2].range(), 'a'..='y');
    assert_eq!(params.chrs[3].range(), 'A'..='Z');
}

#[test]
fn params_two_chars_and_two_char_ranges_unordered() {
    let params = FontParams::parse(&chars(
        r#"monospace, "path/to/monospace.bdf", 'a'..'z', ',', ';', 'A' ..= 'Z'"#,
    ))
    .unwrap();

    assert_eq!(text(&params.name), "monospace");
    assert_eq!(text(&params.path), "path/to/monospace.bdf");
    assert_eq!(params.chrs.len(), 4);
    assert_eq!(params.chrs[0].range(), 'a'..='y');
    assert_eq!(params.chrs[1].range(), ','..=',');
    assert_eq!(params.chrs[2].range(), ';'..=';');
    assert_eq!(params.chrs[3].range(), 'A'..='Z');
}

#[test]
fn literals_take_escapes_and_reject_garbage() {
    let attr = FontAttr::parse(&chars(r#"  "a\"b\\c" , '\'' ,"#)).unwrap();
    assert_eq!(text(&attr.path), "a\"b\\c");
    assert_eq!(attr.chars.len(), 1);
    assert_eq!(attr.chars[0].range(), '\''..='\'');

    assert!(FontAttr::parse(&chars(r#""unterminated"#)).is_none());
    assert!(FontAttr::parse(&chars(r#""path" 'a' 'b'"#)).is_none());
    assert!(FontAttr::parse(&chars(r#""path", 'ab'"#)).is_none());
    assert!(FontAttr::parse(&chars(r#""bad \q escape""#)).is_none());
    assert!(FontParams::parse(&chars(r#"9lives, "path""#)).is_none());
    assert!(FontParams::parse(&chars(r#"name "path""#)).is_none());
}
