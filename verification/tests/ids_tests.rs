use codex_automation::error::Error;
use codex_automation::ids::{path_segment, required, slugify_id, toml_quote, validate_target_id};

#[test]
fn slugify_lowercases_and_collapses() {
    assert_eq!(slugify_id("  My Cool Repo!! "), "my-cool-repo");
    assert_eq!(slugify_id("a__b..c"), "a__b..c");
    assert_eq!(slugify_id("--Repo--Name--"), "repo-name");
    assert_eq!(slugify_id("Über Projekt"), "ber-projekt");
}

#[test]
fn slugify_falls_back_to_workspace() {
    assert_eq!(slugify_id(""), "workspace");
    assert_eq!(slugify_id("   "), "workspace");
    assert_eq!(slugify_id("-._"), "workspace");
    assert_eq!(slugify_id("!!!"), "workspace");
}

#[test]
fn slugify_is_idempotent_on_examples() {
    for value in ["  My Cool Repo!! ", "x", "", "A.B_C-D", "--a--b--"] {
        let once = slugify_id(value);
        assert_eq!(slugify_id(&once), once);
        assert!(validate_target_id(&once).is_ok());
    }
}

#[test]
fn target_ids_follow_the_rules() {
    assert!(validate_target_id("demo").is_ok());
    assert!(validate_target_id("demo-init.v2_x").is_ok());
    assert!(validate_target_id("9lives").is_ok());
    for bad in ["", "-demo", ".demo", "de mo", "de/mo", "démo"] {
        match validate_target_id(bad) {
            Err(Error::InvalidTargetId { target_id }) => assert_eq!(target_id, bad),
            other => panic!("unexpected {:?}", other),
        }
    }
}

#[test]
fn required_trims_and_rejects_blank() {
    assert_eq!(required("  wo-1 \n", "workorder id").unwrap(), "wo-1");
    match required(" \t ", "workorder id") {
        Err(Error::Required { name }) => assert_eq!(name, "workorder id"),
        other => panic!("unexpected {:?}", other),
    }
}

#[test]
fn path_segments_must_be_plain() {
    assert_eq!(path_segment(" demo ", "target id").unwrap(), "demo");
    for bad in [".", "..", "a/b", "a\\b"] {
        match path_segment(bad, "target id") {
            Err(Error::NotPlainId { name }) => assert_eq!(name, "target id"),
            other => panic!("unexpected {:?}", other),
        }
    }
    assert!(matches!(path_segment("  ", "target id"), Err(Error::Required { .. })));
}

#[test]
fn toml_quote_escapes_backslashes_and_quotes() {
    assert_eq!(toml_quote("plain"), "\"plain\"");
    assert_eq!(toml_quote("a\"b"), "\"a\\\"b\"");
    assert_eq!(toml_quote("C:\\dir"), "\"C:\\\\dir\"");
    assert_eq!(toml_quote(""), "\"\"");
}
