use gsi::config::{resolve_roster_path, DEFAULT_ROSTER_FILENAME};

#[test]
fn absent_config_falls_back_with_warning() {
    let outcome = resolve_roster_path(None);
    assert_eq!(outcome.roster_path, DEFAULT_ROSTER_FILENAME);
    assert_eq!(outcome.roster_path, "src/roster.csv");
    assert!(outcome.fallback);
}

#[test]
fn configured_path_is_used_without_warning() {
    let text = "[config]\nroster_path = \"rosters/cs101.csv\"\n";
    let outcome = resolve_roster_path(Some(text));
    assert_eq!(outcome.roster_path, "rosters/cs101.csv");
    assert!(!outcome.fallback);
}

#[test]
fn malformed_config_falls_back_with_warning() {
    let outcome = resolve_roster_path(Some("this is [[ not toml"));
    assert_eq!(outcome.roster_path, "src/roster.csv");
    assert!(outcome.fallback);
}

#[test]
fn missing_key_falls_back_with_warning() {
    let outcome = resolve_roster_path(Some("[config]\nother = 1\n"));
    assert_eq!(outcome.roster_path, "src/roster.csv");
    assert!(outcome.fallback);
}

#[test]
fn non_string_value_falls_back_with_warning() {
    let outcome = resolve_roster_path(Some("[config]\nroster_path = 3\n"));
    assert_eq!(outcome.roster_path, "src/roster.csv");
    assert!(outcome.fallback);
}

#[test]
fn missing_section_falls_back_with_warning() {
    let outcome = resolve_roster_path(Some("[other]\nroster_path = \"x.csv\"\n"));
    assert_eq!(outcome.roster_path, "src/roster.csv");
    assert!(outcome.fallback);
}
