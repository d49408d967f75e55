use alibaba_cloud_kms::text::{
    clone_opt, fold_char, lookup, matches_ignore_ascii_case, starts_with, str_eq,
};

#[test]
fn equal_strings() {
    assert!(str_eq("", ""));
    assert!(str_eq("Success", "Success"));
    assert!(str_eq("né", "né"));
    assert!(!str_eq("Success", "success"));
    assert!(!str_eq("Success", "Succes"));
    assert!(!str_eq("", "a"));
    assert!(!str_eq("é", "e\u{301}"));
    assert!(!str_eq("ab", "ba"));
}

#[test]
fn prefixes() {
    assert!(starts_with("kms.example", "kms"));
    assert!(starts_with("kms", "kms"));
    assert!(starts_with("anything", ""));
    assert!(starts_with("", ""));
    assert!(!starts_with("km", "kms"));
    assert!(!starts_with("", "kms"));
    assert!(!starts_with("xkms", "kms"));
    assert!(!starts_with("Kms", "kms"));
    assert!(starts_with("éa", "é"));
    assert!(!starts_with("ea", "é"));
}

#[test]
fn ascii_folding() {
    assert_eq!(fold_char('A'), 'a' as u32);
    assert_eq!(fold_char('Z'), 'z' as u32);
    assert_eq!(fold_char('a'), 'a' as u32);
    assert_eq!(fold_char('@'), '@' as u32);
    assert_eq!(fold_char('['), '[' as u32);
    assert_eq!(fold_char('1'), '1' as u32);
    assert_eq!(fold_char('É'), 'É' as u32);
    assert_eq!(fold_char('\u{212A}'), 0x212A);
    for c in ['A', 'q', 'Z', '0', '~', 'é', 'É', 'ß'] {
        assert_eq!(fold_char(c), c.to_ascii_lowercase() as u32);
    }
}

#[test]
fn matching_without_case() {
    assert!(matches_ignore_ascii_case("TrUe", "true"));
    assert!(matches_ignore_ascii_case("true", "TRUE"));
    assert!(matches_ignore_ascii_case("", ""));
    assert!(!matches_ignore_ascii_case("tru", "true"));
    assert!(!matches_ignore_ascii_case("truer", "true"));
    assert!(!matches_ignore_ascii_case("trüe", "true"));
    for (a, b) in [("On", "oN"), ("a1", "A1"), ("É", "é"), ("x", "y"), ("[", "{")] {
        assert_eq!(matches_ignore_ascii_case(a, b), a.eq_ignore_ascii_case(b));
    }
}

#[test]
fn lookup_in_pairs() {
    let pairs = vec![
        ("A".to_string(), "1".to_string()),
        ("B".to_string(), "2".to_string()),
        ("A".to_string(), "3".to_string()),
        ("".to_string(), "4".to_string()),
    ];
    assert_eq!(lookup(&pairs, "A"), Some("1".to_string()));
    assert_eq!(lookup(&pairs, "B"), Some("2".to_string()));
    assert_eq!(lookup(&pairs, ""), Some("4".to_string()));
    assert_eq!(lookup(&pairs, "a"), None);
    assert_eq!(lookup(&pairs, "C"), None);
    assert_eq!(lookup(&Vec::new(), "A"), None);
}

#[test]
fn copies_of_optional_strings() {
    assert_eq!(clone_opt(&None), None);
    assert_eq!(clone_opt(&Some("x".to_string())), Some("x".to_string()));
}
