use codex_automation::app_dirs::app_dirs;
use codex_automation::error::Error;
use codex_automation::templates::{
    control_plane_worker, default_runner_workers, ops_analyst_worker, release_manager_worker,
    repo_maintainer_worker, target_config_text, workspace_agents, workspace_config_path,
    workspace_config_text, workspace_readme,
};
use codex_automation::workspace::{
    check_destination, classify_destination, init_workspace_action, plan_workspace_init,
    target_paths, DestinationStatus, WorkspaceAction,
};

#[test]
fn workspace_texts() {
    let readme = workspace_readme("My Space");
    assert!(readme.starts_with("# My Space\n\nThis is a thin codex-automation control workspace"));
    assert!(readme.ends_with("```\n"));
    assert!(workspace_agents().starts_with("# AGENTS.md\n"));
    assert!(control_plane_worker().contains("Keep orchestration simple"));
    let maintainer = repo_maintainer_worker();
    assert!(maintainer.contains("id = \"repo-maintainer\""));
    assert!(maintainer.contains("name = \"Repo Maintainer\""));
    assert!(maintainer.contains("sandbox = \"workspace-write\""));
    assert!(maintainer.contains("Read the shared worktree first"));
    assert!(ops_analyst_worker().contains("id = \"ops-analyst\""));
    assert!(release_manager_worker().contains("id = \"release-manager\""));
    assert_eq!(
        default_runner_workers(),
        vec!["repo-maintainer.toml", "ops-analyst.toml", "release-manager.toml"]
    );
    assert_eq!(workspace_config_path("/ws"), "/ws/codex-automation.toml");
}

#[test]
fn config_texts() {
    let dirs = app_dirs("/state");
    let ws = workspace_config_text("codex", "Codex \"A\"", "/ws", &dirs);
    assert!(ws.starts_with("version = 1\n\n[workspace]\nid = \"codex\"\nname = \"Codex \\\"A\\\"\"\n"));
    assert!(ws.contains("[app_state]"));
    assert!(ws.contains("database = \"/state/codex-automation.sqlite\""));
    assert!(ws.contains("worktrees = "));
    assert!(ws.contains("logs = "));
    assert!(ws.contains("artifacts = "));
    assert!(ws.contains("backups = "));
    let target = target_config_text("demo", "/repo", "codex", "observe", "/state/worktrees/demo", &dirs);
    assert!(target.contains("[target]\nid = \"demo\"\n"));
    assert!(target.contains("profile = \"observe\""));
    assert!(target.contains("custom_instructions"));
    assert!(target.contains("root = \"/state\""));
    assert!(target.contains("logs = "));
    assert!(target.contains("artifacts = "));
    assert!(target.contains("worktree_path = \"/state/worktrees/demo\""));
}

#[test]
fn workspace_init_rules() {
    let w = plan_workspace_init(None, Some("My Workspace"), "/ws/codex-automation.toml", false, false).unwrap();
    assert_eq!(w.name, "My Workspace");
    assert_eq!(w.id, "my-workspace");
    let named = plan_workspace_init(Some("Team"), Some("dir"), "/c", true, true).unwrap();
    assert_eq!(named.id, "team");
    let fallback = plan_workspace_init(None, None, "/c", false, false).unwrap();
    assert_eq!(fallback.name, "codex-automation");
    match plan_workspace_init(None, Some("x"), "/ws/codex-automation.toml", true, false) {
        Err(Error::WorkspaceConfigExists { path }) => assert_eq!(path, "/ws/codex-automation.toml"),
        other => panic!("unexpected {:?}", other),
    }
    assert_eq!(init_workspace_action(true, false), WorkspaceAction::Reused);
    assert_eq!(init_workspace_action(true, true), WorkspaceAction::Initialized);
    assert_eq!(init_workspace_action(false, false), WorkspaceAction::Initialized);
}

#[test]
fn target_file_locations() {
    let p = target_paths("/state/worktrees", "/ws", "demo").unwrap();
    assert_eq!(p.worktree, "/state/worktrees/demo");
    assert_eq!(p.config, "/ws/targets/demo.toml");
    assert!(matches!(target_paths("/w", "/ws", "../x"), Err(Error::InvalidTargetId { .. })));
}

fn names(items: &[&str]) -> Vec<String> {
    items.iter().map(|item| item.to_string()).collect()
}

#[test]
fn workspace_destination_classes() {
    assert_eq!(classify_destination(false, false, &names(&[])), DestinationStatus::Missing);
    assert_eq!(classify_destination(true, false, &names(&[])), DestinationStatus::NotADirectory);
    assert_eq!(classify_destination(true, true, &names(&[])), DestinationStatus::EmptyDirectory);
    assert_eq!(
        classify_destination(true, true, &names(&["Cargo.toml"])),
        DestinationStatus::SourceCheckout
    );
    assert_eq!(
        classify_destination(true, true, &names(&["notes.txt", ".git"])),
        DestinationStatus::SourceCheckout
    );
    assert_eq!(
        classify_destination(true, true, &names(&["Cargo.toml", "codex-automation.toml"])),
        DestinationStatus::ControlWorkspace
    );
    assert_eq!(
        classify_destination(true, true, &names(&["notes.txt"])),
        DestinationStatus::OtherFiles
    );
    assert!(!DestinationStatus::Missing.collision());
    assert!(!DestinationStatus::EmptyDirectory.collision());
    assert!(!DestinationStatus::ControlWorkspace.collision());
    assert!(DestinationStatus::SourceCheckout.collision());
    assert!(DestinationStatus::OtherFiles.collision());
    assert!(DestinationStatus::NotADirectory.collision());
    assert_eq!(DestinationStatus::Missing.reason(), "missing");
    assert_eq!(DestinationStatus::ControlWorkspace.reason(), "existing_control_workspace");
}

#[test]
fn init_refuses_source_checkout_destination() {
    let status = classify_destination(true, true, &names(&["Cargo.toml"]));
    match check_destination("/w/source-like", status, false) {
        Err(Error::WorkspaceCollision { path, reason }) => {
            assert_eq!(path, "/w/source-like");
            assert_eq!(reason, "existing_directory_looks_like_source_repo");
        }
        other => panic!("unexpected {other:?}"),
    }
    assert!(check_destination("/w/source-like", status, true).is_ok());
    assert!(check_destination("/w/new", DestinationStatus::Missing, false).is_ok());
    assert!(check_destination("/w/ws", DestinationStatus::ControlWorkspace, false).is_ok());
    match check_destination("/w/other", DestinationStatus::OtherFiles, false) {
        Err(Error::WorkspaceCollision { reason, .. }) => {
            assert_eq!(reason, "existing_non_empty_directory")
        }
        other => panic!("unexpected {other:?}"),
    }
}
