use svgbob::glyph::{escape_char, is_alphanumeric, is_arrow_down, is_round, is_vertical};

#[test]
fn escapes_markup_characters() {
    assert_eq!(escape_char("\""), "&quot;");
    assert_eq!(escape_char("'"), "&apos;");
    assert_eq!(escape_char("<"), "&lt;");
    assert_eq!(escape_char(">"), "&gt;");
    assert_eq!(escape_char("&"), "&amp;");
    assert_eq!(escape_char("a"), "a");
    assert_eq!(escape_char("文"), "文");
}

#[test]
fn classifies_cells() {
    assert!(is_vertical("|"));
    assert!(!is_vertical("||"));
    assert!(!is_vertical(""));
    assert!(is_arrow_down("v"));
    assert!(is_arrow_down("V"));
    assert!(!is_arrow_down("w"));
    for s in [".", "'", "`", ","] {
        assert!(is_round(s));
    }
    assert!(!is_round("o"));
}

#[test]
fn alphanumeric_cells() {
    assert!(is_alphanumeric("a"));
    assert!(is_alphanumeric("7"));
    assert!(is_alphanumeric("文"));
    assert!(!is_alphanumeric("-"));
    assert!(!is_alphanumeric(" "));
}
