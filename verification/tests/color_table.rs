//! Tests of named-color resolution.

use html_richtext::colors::{color_table, find_named_color, resolve_color};

#[test]
fn lookup_is_case_insensitive() {
    assert_eq!(resolve_color("red"), "FF0000");
    assert_eq!(resolve_color("RED"), "FF0000");
    assert_eq!(resolve_color("Red"), "FF0000");
}

#[test]
fn unknown_token_passes_through_normalized() {
    assert_eq!(resolve_color("#ABCDEF"), "ABCDEF");
    assert_eq!(resolve_color("#abcdef"), "ABCDEF");
    assert_eq!(resolve_color("notacolor"), "NOTACOLOR");
}

#[test]
fn only_one_leading_hash_is_stripped() {
    assert_eq!(resolve_color("##ABCDEF"), "#ABCDEF");
}

#[test]
fn idiosyncratic_entries_are_preserved_verbatim() {
    assert_eq!(resolve_color("light"), "EEDD82");
    assert_eq!(resolve_color("medium"), "66CDAA");
    assert_eq!(resolve_color("pale"), "DB7093");
}

#[test]
fn shade_variants_resolve() {
    assert_eq!(resolve_color("gray99"), "FCFCFC");
    assert_eq!(resolve_color("mediumturquoise"), "48D1CC");
    assert_eq!(resolve_color("black"), "000000");
    assert_eq!(resolve_color("white"), "FFFFFF");
}

#[test]
fn find_named_color_misses_unknown_probes() {
    assert_eq!(find_named_color("NOTACOLOR"), None);
    assert_eq!(find_named_color("RED"), Some("FF0000".to_string()));
}

#[test]
fn table_has_expected_shape() {
    let table = color_table();
    assert_eq!(table.len(), 517);
    assert_eq!(table[0], ("aliceblue", "f0f8ff"));
    for (key, value) in table.iter() {
        assert!(!key.is_empty());
        assert_eq!(value.len(), 6);
        assert!(value.chars().all(|c| c.is_ascii_hexdigit()));
    }
}
