use codex_automation::cli::{version, version_line};

#[test]
fn cli_prints_version() {
    let text = version_line();
    assert!(text.contains("0.1.0"));
    assert!(text.contains(version()));
}
