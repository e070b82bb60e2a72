use codex_automation::scan::{
    insert_sorted_unique, is_ignored_scan_dir, is_marker_file, is_sensitive_scan_file,
    language_for_extension, Language, ScanState,
};

#[test]
fn ignored_directories() {
    for name in [".git", ".runtime", ".pytest_cache", "node_modules", "out", "target", "vendor"] {
        assert!(is_ignored_scan_dir(name), "{name}");
    }
    for name in [".github", "src", "tests", "outputs"] {
        assert!(!is_ignored_scan_dir(name), "{name}");
    }
}

#[test]
fn sensitive_files() {
    assert!(is_sensitive_scan_file(".env", ".env"));
    assert!(is_sensitive_scan_file(".DS_Store", ".DS_Store"));
    assert!(is_sensitive_scan_file("prod.env", "config/prod.env"));
    assert!(is_sensitive_scan_file("Server.PEM", "certs/Server.PEM"));
    assert!(is_sensitive_scan_file("token.json", "token.json"));
    assert!(is_sensitive_scan_file("app.sqlite3", "data/app.sqlite3"));
    assert!(is_sensitive_scan_file("x.txt", "a/.runtime/x.txt"));
    assert!(!is_sensitive_scan_file("index.ts", "src/index.ts"));
    assert!(!is_sensitive_scan_file("README.md", "README.md"));
}

#[test]
fn languages_by_extension() {
    assert_eq!(language_for_extension("rs"), Some(Language::Rust));
    assert_eq!(language_for_extension("tsx"), Some(Language::TypescriptJavascript));
    assert_eq!(language_for_extension("kt"), Some(Language::Jvm));
    assert_eq!(language_for_extension("mdx"), Some(Language::Docs));
    assert_eq!(language_for_extension("txt"), None);
    assert_eq!(Language::TypescriptJavascript.as_str(), "typescript-javascript");
}

#[test]
fn markers() {
    assert!(is_marker_file("Cargo.toml", "Cargo.toml"));
    assert!(is_marker_file("ci.yml", ".github/workflows/ci.yml"));
    assert!(is_marker_file("001.sql", "db/migrations/001.sql"));
    assert!(!is_marker_file("index.ts", "src/index.ts"));
}

#[test]
fn sorted_unique_insertion() {
    let mut v: Vec<String> = Vec::new();
    for x in ["b", "a", "c", "a", "b"] {
        insert_sorted_unique(&mut v, x.to_string());
    }
    assert_eq!(v, vec!["a".to_string(), "b".to_string(), "c".to_string()]);
}

#[test]
fn scan_state_records_files() {
    let mut scan = ScanState::new();
    assert!(scan.should_scan_dir(0));
    assert!(!scan.should_scan_dir(6));
    assert_eq!(scan.dominant_profile(), "unknown");
    assert!(scan.record_file("README.md", "README.md", Some("md")));
    assert!(scan.record_file("ci.yml", ".github/workflows/ci.yml", Some("yml")));
    assert!(!scan.record_file(".env", ".env", None));
    assert_eq!(scan.dominant_profile(), "docs");
    assert!(scan.record_file("index.ts", "src/index.ts", Some("ts")));
    assert!(!scan.has_tests);
    assert!(scan.record_file("index.test.ts", "tests/index.test.ts", Some("ts")));
    assert!(scan.has_tests);
    assert_eq!(scan.dominant_profile(), "mixed");
    assert_eq!(scan.language_counts[10], 2);
    assert_eq!(scan.language_counts[0], 1);
    assert_eq!(scan.language_count(), 2);
    assert_eq!(scan.remaining, 5000 - 4);
    assert_eq!(scan.sample_files.len(), 4);
    assert_eq!(
        scan.markers,
        vec![".github/workflows/ci.yml".to_string(), "README.md".to_string()]
    );
    assert!(!scan.scan_limit_reached());
    assert_eq!(scan.suggested_workers(), vec!["repo-maintainer", "ops-analyst", "release-manager"]);
}
