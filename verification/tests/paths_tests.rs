use codex_automation::app_dirs::{
    app_dirs, display_path, expand_home, expand_path, join, resolve_state_root, HostOs, StateEnv,
};
use codex_automation::error::Error;

fn env() -> StateEnv {
    StateEnv {
        codex_automation_home: None,
        home: None,
        xdg_state_home: None,
        local_app_data: None,
        user_profile: None,
    }
}

#[test]
fn join_follows_path_rules() {
    assert_eq!(join("/a", "b"), "/a/b");
    assert_eq!(join("/a/", "b"), "/a/b");
    assert_eq!(join("", "b"), "b");
    assert_eq!(join("/a", "/etc"), "/etc");
    assert_eq!(join("/a", ""), "/a/");
}

#[test]
fn app_dirs_layout() {
    let dirs = app_dirs("/state");
    assert_eq!(dirs.state_root, "/state");
    assert_eq!(dirs.database, "/state/codex-automation.sqlite");
    assert_eq!(dirs.worktrees, "/state/worktrees");
    assert_eq!(dirs.logs, "/state/logs");
    assert_eq!(dirs.artifacts, "/state/artifacts");
    assert_eq!(dirs.backups, "/state/backups");
    assert_eq!(display_path("/state/logs"), "/state/logs");
}

#[test]
fn state_root_prefers_override() {
    let mut e = env();
    e.codex_automation_home = Some("/custom".to_string());
    e.home = Some("/home/u".to_string());
    assert_eq!(resolve_state_root(HostOs::Other, &e).unwrap(), "/custom");
    e.codex_automation_home = Some(String::new());
    match resolve_state_root(HostOs::Other, &e) {
        Err(Error::EnvEmpty { name }) => assert_eq!(name, "CODEX_AUTOMATION_HOME"),
        other => panic!("unexpected {:?}", other),
    }
}

#[test]
fn state_root_per_os() {
    let mut e = env();
    e.home = Some("/home/u".to_string());
    assert_eq!(
        resolve_state_root(HostOs::Other, &e).unwrap(),
        "/home/u/.local/state/codex-automation"
    );
    assert_eq!(
        resolve_state_root(HostOs::MacOs, &e).unwrap(),
        "/home/u/Library/Application Support/codex-automation"
    );
    e.xdg_state_home = Some("/xdg".to_string());
    assert_eq!(resolve_state_root(HostOs::Other, &e).unwrap(), "/xdg/codex-automation");
    e.xdg_state_home = Some(String::new());
    assert!(matches!(resolve_state_root(HostOs::Other, &e), Err(Error::EnvEmpty { .. })));
    let mut w = env();
    w.user_profile = Some("C:/Users/u".to_string());
    assert_eq!(
        resolve_state_root(HostOs::Windows, &w).unwrap(),
        "C:/Users/u/AppData/Local/codex-automation"
    );
    w.local_app_data = Some("C:/Local".to_string());
    assert_eq!(resolve_state_root(HostOs::Windows, &w).unwrap(), "C:/Local/codex-automation");
    match resolve_state_root(HostOs::Other, &env()) {
        Err(Error::HomeMissing { detail }) => {
            assert_eq!(detail, "HOME is required when XDG_STATE_HOME is unset")
        }
        other => panic!("unexpected {:?}", other),
    }
}

#[test]
fn home_expansion() {
    assert_eq!(expand_home("~/ws", Some("/home/u")).unwrap(), "/home/u/ws");
    assert_eq!(expand_home("~", Some("/home/u")).unwrap(), "/home/u/");
    assert_eq!(expand_home("/abs", None).unwrap(), "/abs");
    assert_eq!(expand_home("~user", None).unwrap(), "~user");
    assert!(matches!(expand_home("~/x", None), Err(Error::HomeMissing { .. })));
    assert_eq!(expand_path("rel/dir", None, "/cwd").unwrap(), "/cwd/rel/dir");
    assert_eq!(expand_path("/abs", None, "/cwd").unwrap(), "/abs");
    assert_eq!(expand_path("~/x", Some("/h"), "/cwd").unwrap(), "/h/x");
}
