use codex_automation::checks::{
    check_add_worker, check_create_workorder, check_handoff, check_record_approval, check_target,
    plan_add_target, WorkspaceConfig,
};
use codex_automation::error::Error;
use codex_automation::json::Json;
use codex_automation::results::WorkorderStatus;
use codex_automation::worker::WorkerRecord;

fn s(v: &str) -> Json {
    Json::Str(v.to_string())
}

fn obj(pairs: Vec<(&str, Json)>) -> Json {
    Json::Object(pairs.into_iter().map(|(k, v)| (k.to_string(), v)).collect())
}

fn ids(items: &[&str]) -> Vec<String> {
    items.iter().map(|i| i.to_string()).collect()
}

#[test]
fn target_must_be_registered() {
    assert!(check_target("demo", true).is_ok());
    match check_target("demo", false) {
        Err(e @ Error::TargetNotRegistered { .. }) => {
            assert_eq!(e.message(), "target is not registered: demo")
        }
        other => panic!("unexpected {other:?}"),
    }
}

#[test]
fn create_workorder_checks() {
    let payload = obj(vec![("scope", s("read_only"))]);
    let w = check_create_workorder("demo", true, &ids(&["wo-1"]), " wo-2 ", "bug_fix", "Fix", &payload)
        .unwrap();
    assert_eq!(w.id, "wo-2");
    assert_eq!(w.status, WorkorderStatus::Queued);
    match check_create_workorder("demo", true, &ids(&["wo-1"]), " wo-1", "bug_fix", "Fix", &payload) {
        Err(Error::WorkorderExists { workorder_id }) => assert_eq!(workorder_id, "wo-1"),
        other => panic!("unexpected {other:?}"),
    }
    assert!(matches!(
        check_create_workorder("demo", false, &ids(&[]), "wo-1", "k", "t", &payload),
        Err(Error::TargetNotRegistered { .. })
    ));
    match check_create_workorder("demo", true, &ids(&[]), "wo-1", " ", "t", &payload) {
        Err(Error::Required { name }) => assert_eq!(name, "workorder kind"),
        other => panic!("unexpected {other:?}"),
    }
    assert!(matches!(
        check_create_workorder("demo", true, &ids(&[]), "wo-1", "k", "t", &s("x")),
        Err(Error::WorkorderPayloadNotObject)
    ));
}

#[test]
fn add_worker_checks() {
    assert!(matches!(
        check_add_worker("demo", false, &obj(vec![])),
        Err(Error::TargetNotRegistered { .. })
    ));
    assert!(matches!(
        check_add_worker("demo", true, &obj(vec![])),
        Err(Error::WorkerTableMissing)
    ));
}

#[test]
fn record_approval_checks() {
    let d = check_record_approval("demo", true, "a-1", true, " approved ", "ops", "ok").unwrap();
    assert!(d.approved);
    match check_record_approval("demo", true, "a-9", false, "rejected", "ops", "no") {
        Err(e @ Error::ApprovalNotRegistered { .. }) => {
            assert_eq!(e.message(), "approval is not registered: a-9")
        }
        other => panic!("unexpected {other:?}"),
    }
    assert!(matches!(
        check_record_approval("demo", true, "a-9", false, "maybe", "ops", "no"),
        Err(Error::ApprovalDecisionInvalid)
    ));
    assert!(matches!(
        check_record_approval("demo", false, "a-1", true, "approved", "ops", "ok"),
        Err(Error::TargetNotRegistered { .. })
    ));
}

fn worker(kinds: Json) -> WorkerRecord {
    WorkerRecord {
        id: "repo-maintainer".to_string(),
        name: "Repo Maintainer".to_string(),
        status: "active".to_string(),
        allowed_workorder_kinds: kinds,
        sandbox: "workspace-write".to_string(),
        custom_instructions: String::new(),
    }
}

#[test]
fn handoff_checks() {
    let w = worker(Json::Array(vec![s("repo_discovery")]));
    assert!(check_handoff("demo", true, "wo-2", Some("repo_discovery"), None, None).is_ok());
    assert!(check_handoff("demo", true, "wo-2", Some("repo_discovery"), Some("repo-maintainer"), Some(&w)).is_ok());
    match check_handoff("demo", true, "wo-2", None, None, None) {
        Err(Error::WorkorderNotRegistered { workorder_id }) => assert_eq!(workorder_id, "wo-2"),
        other => panic!("unexpected {other:?}"),
    }
    match check_handoff("demo", true, "wo-2", Some("bug_fix"), Some("ghost"), None) {
        Err(Error::WorkerNotRegistered { worker_id }) => assert_eq!(worker_id, "ghost"),
        other => panic!("unexpected {other:?}"),
    }
    match check_handoff("demo", true, "wo-2", Some("bug_fix"), Some("repo-maintainer"), Some(&w)) {
        Err(e @ Error::WorkerKindNotAllowed { .. }) => assert_eq!(
            e.message(),
            "worker repo-maintainer does not allow workorder kind bug_fix"
        ),
        other => panic!("unexpected {other:?}"),
    }
    assert!(matches!(
        check_handoff("demo", true, "wo-2", Some("bug_fix"), Some("x"), Some(&worker(Json::Null))),
        Err(Error::WorkerKindsMissing)
    ));
    assert!(matches!(
        check_handoff("demo", false, "wo-2", Some("bug_fix"), None, None),
        Err(Error::TargetNotRegistered { .. })
    ));
}

#[test]
fn add_target_checks() {
    let config = obj(vec![("workspace", obj(vec![("id", s("codex-automation"))]))]);
    let parsed = WorkspaceConfig::Parsed(config);
    let (paths, id) = plan_add_target("/state/worktrees", "/w", "demo", "/repo", true, &parsed).unwrap();
    assert_eq!(paths.worktree, "/state/worktrees/demo");
    assert_eq!(paths.config, "/w/targets/demo.toml");
    assert_eq!(id, "codex-automation");
    assert!(matches!(
        plan_add_target("/s", "/w", "Bad Id", "/repo", true, &parsed),
        Err(Error::InvalidTargetId { .. })
    ));
    match plan_add_target("/s", "/w", "demo", "/repo", false, &parsed) {
        Err(Error::TargetRepoMissing { path }) => assert_eq!(path, "/repo"),
        other => panic!("unexpected {other:?}"),
    }
    match plan_add_target("/s", "/w", "demo", "/repo", true, &WorkspaceConfig::Invalid) {
        Err(e @ Error::WorkspaceConfigInvalid { .. }) => {
            assert_eq!(e.message(), "workspace config is invalid: /w/codex-automation.toml")
        }
        other => panic!("unexpected {other:?}"),
    }
    match plan_add_target("/s", "/w", "demo", "/repo", true, &WorkspaceConfig::Unreadable) {
        Err(e @ Error::NotAWorkspace { .. }) => {
            assert_eq!(e.message(), "not a codex-automation workspace: /w")
        }
        other => panic!("unexpected {other:?}"),
    }
    assert!(matches!(
        plan_add_target("/s", "/w", "demo", "/repo", true, &WorkspaceConfig::Parsed(obj(vec![]))),
        Err(Error::WorkspaceIdMissing { .. })
    ));
}

#[test]
fn error_messages() {
    assert_eq!(
        Error::Required { name: "workorder id".to_string() }.message(),
        "workorder id is required"
    );
    assert_eq!(
        Error::MarkerMissing { label: "control_workspace".to_string(), marker_path: "/w/x".to_string() }
            .message(),
        "refusing to remove control_workspace; marker is missing: /w/x"
    );
    assert_eq!(Error::YesWithDryRun.message(), "--yes and --dry-run cannot be used together");
}
