use world_server::character::character_name::{character_name_key, character_names_match};

#[test]
fn names_compare_without_case_or_surrounding_space() {
    assert!(character_names_match("Thrall", "thrall"));
    assert!(character_names_match("  jaina\t", "JAINA"));
    assert!(character_names_match("Éowyn", "éOWYN "));
    assert!(!character_names_match("Arthas", "Arthur"));
    assert!(!character_names_match("a b", "ab"));
}

#[test]
fn name_key_is_upper_case_and_trimmed() {
    assert_eq!(character_name_key(" Sylvanas \n"), "SYLVANAS");
    assert_eq!(character_name_key("\u{3000}x\u{2028}"), "X");
    assert_eq!(character_name_key("   "), "");
}
