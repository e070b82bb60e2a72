use codex_automation::error::Error;
use codex_automation::json::Json;
use codex_automation::worker::{
    custom_instructions_from_config, ensure_worker_allows, parse_worker_definition,
    select_worker_for_kind, worker_allows_kind, workspace_id_from_config,
    workspace_name_from_config, WorkerRecord,
};

fn s(v: &str) -> Json {
    Json::Str(v.to_string())
}

fn arr(items: &[&str]) -> Json {
    Json::Array(items.iter().map(|v| s(v)).collect())
}

fn obj(pairs: Vec<(&str, Json)>) -> Json {
    Json::Object(pairs.into_iter().map(|(k, v)| (k.to_string(), v)).collect())
}

fn worker_table(extra: Vec<(&str, Json)>) -> Json {
    let mut pairs = vec![
        ("id", s("repo-maintainer")),
        ("name", s(" Repo Maintainer ")),
        ("description", s("Fixes things")),
        ("skills", arr(&["repo-discovery", " focused-fix "])),
        ("allowed_workorder_kinds", arr(&["repo_discovery", "bug_fix"])),
        ("sandbox", s("workspace-write")),
        ("approval_policy", s("on-request")),
        ("autonomy_profile", s("balanced")),
        ("max_concurrency", Json::Int(2)),
    ];
    for (key, value) in extra {
        pairs.retain(|(k, _)| *k != key);
        pairs.push((key, value));
    }
    obj(pairs)
}

#[test]
fn worker_definition_is_read() {
    let payload = obj(vec![
        (
            "worker",
            worker_table(vec![("custom_instructions", s("  Read the shared worktree first. "))]),
        ),
        ("config", obj(vec![("result_contract", s("cli"))])),
    ]);
    let def = parse_worker_definition(&payload).expect("valid worker");
    assert_eq!(def.id, "repo-maintainer");
    assert_eq!(def.name, "Repo Maintainer");
    assert_eq!(def.skills, vec!["repo-discovery".to_string(), "focused-fix".to_string()]);
    assert_eq!(def.allowed_workorder_kinds.len(), 2);
    assert_eq!(def.sandbox, "workspace-write");
    assert_eq!(def.max_concurrency, 2);
    assert_eq!(def.custom_instructions, "Read the shared worktree first.");
}

#[test]
fn worker_definition_errors_in_order() {
    assert!(matches!(parse_worker_definition(&obj(vec![])), Err(Error::WorkerTableMissing)));
    assert!(matches!(
        parse_worker_definition(&obj(vec![("worker", s("x"))])),
        Err(Error::WorkerTableNotObject)
    ));
    let missing_name = obj(vec![("worker", obj(vec![("id", s("a"))]))]);
    match parse_worker_definition(&missing_name) {
        Err(Error::WorkerFieldRequired { key }) => assert_eq!(key, "name"),
        other => panic!("unexpected {:?}", other),
    }
    let blank_id = obj(vec![("worker", obj(vec![("id", s("  "))]))]);
    assert!(matches!(parse_worker_definition(&blank_id), Err(Error::WorkerFieldNotString { .. })));
    let bad_skills = obj(vec![("worker", worker_table(vec![("skills", s("x"))]))]);
    match parse_worker_definition(&bad_skills) {
        Err(Error::WorkerFieldNotArray { key }) => assert_eq!(key, "skills"),
        other => panic!("unexpected {:?}", other),
    }
    let empty_kinds = obj(vec![("worker", worker_table(vec![("allowed_workorder_kinds", arr(&[]))]))]);
    assert!(matches!(parse_worker_definition(&empty_kinds), Err(Error::WorkerArrayEmpty { .. })));
    let bad_item = obj(vec![(
        "worker",
        worker_table(vec![("skills", Json::Array(vec![s("ok"), Json::Int(1)]))]),
    )]);
    assert!(matches!(
        parse_worker_definition(&bad_item),
        Err(Error::WorkerArrayItemInvalid { .. })
    ));
    let zero = obj(vec![("worker", worker_table(vec![("max_concurrency", Json::Int(0))]))]);
    assert!(matches!(parse_worker_definition(&zero), Err(Error::WorkerMaxConcurrency)));
    let bad_instr = obj(vec![("worker", worker_table(vec![("custom_instructions", Json::Int(1))]))]);
    assert!(matches!(
        parse_worker_definition(&bad_instr),
        Err(Error::WorkerOptionalNotString { .. })
    ));
    let bad_config = obj(vec![("worker", worker_table(vec![])), ("config", s("x"))]);
    assert!(matches!(parse_worker_definition(&bad_config), Err(Error::WorkerConfigNotObject)));
}

fn record(id: &str, status: &str, kinds: &[&str]) -> WorkerRecord {
    WorkerRecord {
        id: id.to_string(),
        name: id.to_string(),
        status: status.to_string(),
        allowed_workorder_kinds: arr(kinds),
        sandbox: "read-only".to_string(),
        custom_instructions: String::new(),
    }
}

#[test]
fn worker_selection_takes_first_active_match() {
    let workers = vec![
        record("ops-analyst", "active", &["log_analysis"]),
        record("paused", "paused", &["repo_discovery"]),
        record("repo-maintainer", "active", &["repo_discovery", "bug_fix"]),
        record("zeta", "active", &["repo_discovery"]),
    ];
    assert_eq!(select_worker_for_kind(&workers, "repo_discovery").unwrap(), 2);
    assert_eq!(select_worker_for_kind(&workers, "log_analysis").unwrap(), 0);
    match select_worker_for_kind(&workers, "release_prep") {
        Err(Error::NoActiveWorker { kind }) => assert_eq!(kind, "release_prep"),
        other => panic!("unexpected {:?}", other),
    }
    assert!(worker_allows_kind(&workers[2], "bug_fix"));
    assert!(!worker_allows_kind(&workers[0], "bug_fix"));
    assert!(ensure_worker_allows(&workers[2], "bug_fix").is_ok());
    match ensure_worker_allows(&workers[0], "bug_fix") {
        Err(Error::WorkerKindNotAllowed { worker_id, kind }) => {
            assert_eq!(worker_id, "ops-analyst");
            assert_eq!(kind, "bug_fix");
        }
        other => panic!("unexpected {:?}", other),
    }
}

#[test]
fn workspace_config_lookups() {
    let config = obj(vec![
        ("workspace", obj(vec![("id", s("codex-automation")), ("name", s("Codex"))])),
        ("target", obj(vec![("custom_instructions", s("  Follow AGENTS.md  "))])),
        ("worker", obj(vec![("custom_instructions", Json::Int(3))])),
    ]);
    assert_eq!(workspace_id_from_config(&config, "/w/codex-automation.toml").unwrap(), "codex-automation");
    assert_eq!(workspace_name_from_config(&config, "fallback"), "Codex");
    assert_eq!(custom_instructions_from_config(&config, "target", "/w/codex-automation.toml").unwrap(), "Follow AGENTS.md");
    assert_eq!(custom_instructions_from_config(&config, "missing", "/w/codex-automation.toml").unwrap(), "");
    match custom_instructions_from_config(&config, "worker", "/w/codex-automation.toml") {
        Err(e @ Error::CustomInstructionsNotString { .. }) => assert_eq!(
            e.message(),
            "worker.custom_instructions must be a string in /w/codex-automation.toml"
        ),
        other => panic!("unexpected {:?}", other),
    }
    let no_id = obj(vec![("workspace", obj(vec![("id", s(""))]))]);
    match workspace_id_from_config(&no_id, "/w/codex-automation.toml") {
        Err(e @ Error::WorkspaceIdMissing { .. }) => {
            assert_eq!(e.message(), "workspace id is missing in /w/codex-automation.toml")
        }
        other => panic!("unexpected {:?}", other),
    }
    assert_eq!(workspace_name_from_config(&no_id, "fallback"), "fallback");
}

#[test]
fn worker_without_kind_list_is_refused() {
    let mut worker = record("broken", "active", &[]);
    worker.allowed_workorder_kinds = Json::Null;
    assert!(matches!(ensure_worker_allows(&worker, "bug_fix"), Err(Error::WorkerKindsMissing)));
    assert!(!worker_allows_kind(&worker, "bug_fix"));
}
