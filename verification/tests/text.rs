use zed_turborepo::text::has_prefix;

#[test]
fn prefix_is_told_character_by_character() {
    assert!(has_prefix("turbo-vsc-2.3.1", "turbo-vsc-"));
    assert!(has_prefix("turbo-vsc-", "turbo-vsc-"));
    assert!(has_prefix("anything", ""));
    assert!(has_prefix("", ""));
    assert!(!has_prefix("turbo-vsc", "turbo-vsc-"));
    assert!(!has_prefix("", "t"));
    assert!(!has_prefix("Turbo-vsc-1", "turbo-vsc-"));
    assert!(!has_prefix("xturbo-vsc-1", "turbo-vsc-"));
}

#[test]
fn prefix_of_text_beyond_ascii() {
    assert!(has_prefix("été-2024", "été"));
    assert!(!has_prefix("ete-2024", "été"));
    assert!(!has_prefix("é", "e"));
}
