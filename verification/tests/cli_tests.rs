use codex_automation::cli::{
    app_state_markers, check_app_state_removal, check_marker, ensure_runner_execution_enabled,
    init_target_id, is_git_url, path_kind, plan_uninstall, reject_dangerous_delete,
    repo_name_from_url, UninstallFlags, UninstallPlan,
};
use codex_automation::error::Error;
use codex_automation::skill::{
    asset_is_executable, asset_paths, ensure_supported_skill, plan_skill_install, removes,
    resolve_codex_home, skill_path, skill_status, AssetState, CodexHomeEnv, InstallPlan,
};

fn flags() -> UninstallFlags {
    UninstallFlags {
        remove_app_state: false,
        remove_skills: false,
        remove_control_workspace: false,
        workspace_given: false,
        yes: false,
        dry_run: false,
    }
}

#[test]
fn uninstall_previews_by_default() {
    let mut f = flags();
    f.workspace_given = true;
    assert_eq!(
        plan_uninstall(f).unwrap(),
        UninstallPlan { dry_run: true, app_state: true, skills: true, control_workspace: true }
    );
    let mut all = flags();
    all.remove_app_state = true;
    all.remove_skills = true;
    all.remove_control_workspace = true;
    all.workspace_given = true;
    all.yes = true;
    assert_eq!(
        plan_uninstall(all).unwrap(),
        UninstallPlan { dry_run: false, app_state: true, skills: true, control_workspace: true }
    );
    let mut only_skills = flags();
    only_skills.remove_skills = true;
    only_skills.yes = true;
    assert_eq!(
        plan_uninstall(only_skills).unwrap(),
        UninstallPlan { dry_run: false, app_state: false, skills: true, control_workspace: false }
    );
}

#[test]
fn uninstall_refusals() {
    let mut a = flags();
    a.yes = true;
    a.dry_run = true;
    assert!(matches!(plan_uninstall(a), Err(Error::YesWithDryRun)));
    let mut b = flags();
    b.yes = true;
    assert!(matches!(plan_uninstall(b), Err(Error::NoRemovalRequested)));
    let mut c = flags();
    c.remove_control_workspace = true;
    assert!(matches!(plan_uninstall(c), Err(Error::WorkspaceRequiredForRemoval)));
}

#[test]
fn removal_safety_checks() {
    assert!(reject_dangerous_delete("/x/y", true, false, false).is_ok());
    match reject_dangerous_delete("/", false, false, false) {
        Err(Error::DangerousDelete { what, path }) => {
            assert_eq!(what, "filesystem root");
            assert_eq!(path, "/");
        }
        other => panic!("unexpected {:?}", other),
    }
    assert!(matches!(
        reject_dangerous_delete("/home/u", true, true, false),
        Err(Error::DangerousDelete { .. })
    ));
    assert!(check_app_state_removal("/x", false, true, false, 0).is_err());
    assert!(check_app_state_removal("/x", true, true, false, 0).is_ok());
    assert!(check_app_state_removal("/x/codex-automation", false, true, true, 0).is_ok());
    assert!(check_app_state_removal("/x", false, true, false, 2).is_ok());
    assert!(matches!(
        check_marker("control_workspace", "/ws/codex-automation.toml", true, false),
        Err(Error::MarkerMissing { .. })
    ));
    assert!(check_marker("control_workspace", "/ws/codex-automation.toml", false, false).is_ok());
    assert_eq!(path_kind(true, false), "directory");
    assert_eq!(path_kind(false, true), "file");
    assert_eq!(path_kind(false, false), "missing");
    assert_eq!(app_state_markers().len(), 5);
    assert!(removes(true, false));
    assert!(!removes(true, true));
}

#[test]
fn git_urls_and_names() {
    assert!(is_git_url("https://github.com/o/r.git"));
    assert!(is_git_url("git@github.com:o/r.git"));
    assert!(!is_git_url("/tmp/repo"));
    assert_eq!(repo_name_from_url("https://github.com/o/repo.git/").unwrap(), "repo");
    assert_eq!(repo_name_from_url("git@github.com:o/My.Repo").unwrap(), "My.Repo");
    assert_eq!(repo_name_from_url("git@host:repo.git").unwrap(), "repo");
    assert!(matches!(
        repo_name_from_url("https://host/o/:"),
        Err(Error::RepoNameUnderivable { .. })
    ));
    assert_eq!(init_target_id(Some("demo-init"), "/x", Some("x")).unwrap(), "demo-init");
    assert_eq!(init_target_id(None, "https://github.com/o/My Repo.git", None).unwrap(), "my-repo");
    assert_eq!(init_target_id(None, "/tmp/target-repo", Some("target-repo")).unwrap(), "target-repo");
    assert!(matches!(init_target_id(None, "/", None), Err(Error::TargetPathNoName)));
}

#[test]
fn execution_gate() {
    assert!(ensure_runner_execution_enabled(Some("1")).is_ok());
    assert!(matches!(ensure_runner_execution_enabled(Some("true")), Err(Error::RunnerExecutionGated)));
    assert!(matches!(ensure_runner_execution_enabled(None), Err(Error::RunnerExecutionGated)));
}

#[test]
fn setup_skill_rules() {
    assert!(ensure_supported_skill("codex-automation-setup").is_ok());
    match ensure_supported_skill("other") {
        Err(Error::UnsupportedSkill { skill }) => assert_eq!(skill, "other"),
        other => panic!("unexpected {:?}", other),
    }
    assert_eq!(skill_path("/h/.codex"), "/h/.codex/skills/codex-automation-setup");
    assert_eq!(asset_paths()[0], "SKILL.md");
    assert!(asset_is_executable(2));
    assert!(!asset_is_executable(1));
    let status = skill_status(&vec![
        AssetState::Same,
        AssetState::Missing,
        AssetState::Changed,
        AssetState::Same,
        AssetState::Missing,
    ]);
    assert_eq!(status.missing, vec!["agents/openai.yaml", "scripts/update.py"]);
    assert_eq!(status.changed, vec!["scripts/doctor.py"]);
    assert_eq!(plan_skill_install(true, 0, 0, true, false, true), InstallPlan::Planned { installed: true });
    assert_eq!(plan_skill_install(true, 0, 0, true, false, false), InstallPlan::AlreadyInstalled);
    assert_eq!(plan_skill_install(true, 1, 0, true, false, false), InstallPlan::NeedsOverwrite);
    assert_eq!(
        plan_skill_install(true, 1, 0, true, true, false),
        InstallPlan::Install { remove_existing: true }
    );
    assert_eq!(
        plan_skill_install(false, 5, 0, false, false, false),
        InstallPlan::Install { remove_existing: false }
    );
    let env = CodexHomeEnv { codex_home: None, home: Some("/h".to_string()), user_profile: None };
    assert_eq!(resolve_codex_home(&env).unwrap(), "/h/.codex");
    let explicit = CodexHomeEnv { codex_home: Some("/c".to_string()), home: Some("/h".to_string()), user_profile: None };
    assert_eq!(resolve_codex_home(&explicit).unwrap(), "/c");
    let empty = CodexHomeEnv { codex_home: Some(String::new()), home: None, user_profile: None };
    assert!(matches!(resolve_codex_home(&empty), Err(Error::EnvEmpty { .. })));
    let none = CodexHomeEnv { codex_home: None, home: None, user_profile: Some("/p".to_string()) };
    assert_eq!(resolve_codex_home(&none).unwrap(), "/p/.codex");
}

#[test]
fn complete_install_reports_nothing_missing() {
    let status = skill_status(&vec![AssetState::Same; 5]);
    assert!(status.missing.is_empty());
    assert!(status.changed.is_empty());
    assert!(matches!(
        plan_skill_install(true, 0, 0, true, false, false),
        InstallPlan::AlreadyInstalled
    ));
    assert!(matches!(
        plan_skill_install(false, 5, 0, false, false, false),
        InstallPlan::Install { remove_existing: false }
    ));
}
