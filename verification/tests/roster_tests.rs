use gsi::roster::{RosterError, RosterStore};

#[test]
fn load_absent_source_is_not_found() {
    let res = RosterStore::load(None);
    assert_eq!(res.unwrap_err(), RosterError::NotFound);
}

#[test]
fn load_two_students() {
    let text = "name,github_username\nAlice,alice\nBob,bob\n";
    let students = RosterStore::load(Some(text)).unwrap();
    assert_eq!(students.len(), 2);
    assert_eq!(students[0].name, "Alice");
    assert_eq!(students[0].github_username, "alice");
    assert_eq!(students[1].name, "Bob");
    assert_eq!(students[1].github_username, "bob");
}

#[test]
fn load_collapses_exact_duplicates() {
    let text = "name,github_username\nAlice,alice\nBob,bob\nAlice,alice\nAlice,alice\n";
    let students = RosterStore::load(Some(text)).unwrap();
    assert_eq!(students.len(), 2);
}

#[test]
fn load_keeps_same_username_under_different_names() {
    let text = "name,github_username\nAlice,shared\nAlicia,shared\nAlice,other\n";
    let students = RosterStore::load(Some(text)).unwrap();
    assert_eq!(students.len(), 3);
}

#[test]
fn load_missing_username_column_is_malformed() {
    let text = "name,surname\nAlice,Smith\n";
    let res = RosterStore::load(Some(text));
    assert_eq!(res.unwrap_err(), RosterError::Malformed);
}

#[test]
fn load_missing_name_column_is_malformed() {
    let text = "github_username\nalice\n";
    let res = RosterStore::load(Some(text));
    assert_eq!(res.unwrap_err(), RosterError::Malformed);
}

#[test]
fn load_ragged_row_is_fatal() {
    let text = "name,github_username\nAlice,alice\nBob\n";
    let res = RosterStore::load(Some(text));
    assert_eq!(res.unwrap_err(), RosterError::Malformed);
}

#[test]
fn load_columns_in_any_order() {
    let text = "github_username,name\nalice,Alice\n";
    let students = RosterStore::load(Some(text)).unwrap();
    assert_eq!(students.len(), 1);
    assert_eq!(students[0].name, "Alice");
    assert_eq!(students[0].github_username, "alice");
}

#[test]
fn load_ignores_extra_columns() {
    let text = "name,section,github_username\nAlice,A1,alice\n";
    let students = RosterStore::load(Some(text)).unwrap();
    assert_eq!(students.len(), 1);
    assert_eq!(students[0].name, "Alice");
    assert_eq!(students[0].github_username, "alice");
}

#[test]
fn load_empty_text_is_malformed() {
    let res = RosterStore::load(Some(""));
    assert_eq!(res.unwrap_err(), RosterError::Malformed);
}

#[test]
fn load_honours_quoted_fields() {
    let text = "name,github_username\n\"Smith, Alice\",alice\n";
    let students = RosterStore::load(Some(text)).unwrap();
    assert_eq!(students.len(), 1);
    assert_eq!(students[0].name, "Smith, Alice");
    assert_eq!(students[0].github_username, "alice");
}

#[test]
fn load_header_only_is_empty_roster() {
    let students = RosterStore::load(Some("name,github_username\n")).unwrap();
    assert_eq!(students.len(), 0);
}
