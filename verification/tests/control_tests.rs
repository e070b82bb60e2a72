use codex_automation::clock::{new_discovery_workorder_id, now_iso, set_status_now};
use codex_automation::control::{
    approval_decision, approval_workorder_status, discovery_workorder, discovery_workorder_id,
    dispatch_step, heartbeat_upkeep, settle_workorder, Upkeep,
    dispatch_summary, first_ready_workorder, loop_status, needs_second_loop, new_approval,
    new_workorder, plan_loop_step, plan_runner_refresh, set_status, DispatchStep,
    DispatchSummary, IdleReason, LoopPlan, LoopStatus, RefreshPlan, WorkorderRow,
};
use codex_automation::error::Error;
use codex_automation::json::Json;
use codex_automation::results::{prepare_result, WorkorderStatus};

fn row(id: &str, status: &str, created_at: &str) -> WorkorderRow {
    WorkorderRow {
        id: id.to_string(),
        target_id: "demo".to_string(),
        kind: "repo_discovery".to_string(),
        status: status.to_string(),
        title: "Inspect".to_string(),
        payload_json: "{}".to_string(),
        created_at: created_at.to_string(),
        updated_at: created_at.to_string(),
    }
}

#[test]
fn loop_marks_earliest_queued_workorder() {
    let rows = vec![
        row("wo-3", "queued", "2024-01-02"),
        row("wo-2", "queued", "2024-01-01"),
        row("wo-1", "queued", "2024-01-01"),
        row("wo-0", "completed", "2023-01-01"),
    ];
    assert_eq!(plan_loop_step(&rows), LoopPlan::MarkReady { index: 2 });
}

#[test]
fn loop_reports_active_or_creates_discovery() {
    let active = vec![
        row("wo-1", "completed", "2024-01-01"),
        row("wo-2", "needs_user", "2024-01-03"),
        row("wo-3", "handoff_ready", "2024-01-02"),
    ];
    assert_eq!(plan_loop_step(&active), LoopPlan::ActiveExists { index: 2 });
    let idle = vec![row("wo-1", "completed", "2024-01-01"), row("wo-2", "failed", "2024-01-02")];
    assert_eq!(plan_loop_step(&idle), LoopPlan::CreateDiscovery);
    assert_eq!(plan_loop_step(&Vec::new()), LoopPlan::CreateDiscovery);
}

#[test]
fn loop_step_makes_progress() {
    let mut rows = vec![row("wo-1", "queued", "2024-01-01")];
    let plan = plan_loop_step(&rows);
    assert_eq!(plan, LoopPlan::MarkReady { index: 0 });
    let marked = set_status(&rows[0], WorkorderStatus::ReadyForWorker, "2024-02-01");
    assert_eq!(marked.status, "ready_for_worker");
    assert_eq!(marked.updated_at, "2024-02-01");
    assert_eq!(marked.created_at, "2024-01-01");
    rows[0] = marked;
    assert_eq!(plan_loop_step(&rows), LoopPlan::ActiveExists { index: 0 });
    assert_eq!(first_ready_workorder(&rows), Some(0));
}

#[test]
fn loop_status_reflects_dry_run() {
    assert_eq!(loop_status(LoopPlan::MarkReady { index: 0 }, true), LoopStatus::Planned);
    assert_eq!(loop_status(LoopPlan::MarkReady { index: 0 }, false), LoopStatus::ReadyForWorker);
    assert_eq!(loop_status(LoopPlan::CreateDiscovery, false), LoopStatus::CreatedWorkorder);
    assert_eq!(
        loop_status(LoopPlan::ActiveExists { index: 1 }, true),
        LoopStatus::ActiveWorkorderExists
    );
    assert_eq!(LoopStatus::CreatedWorkorder.as_str(), "created_workorder");
    assert!(needs_second_loop(false, LoopStatus::CreatedWorkorder));
    assert!(!needs_second_loop(true, LoopStatus::CreatedWorkorder));
    assert!(!needs_second_loop(false, LoopStatus::ReadyForWorker));
}

#[test]
fn discovery_ids_use_milliseconds() {
    assert_eq!(discovery_workorder_id(1700000000123), "repo-maintainer-1700000000123");
    assert_eq!(discovery_workorder_id(0), "repo-maintainer-0");
    assert_eq!(discovery_workorder_id(-42), "repo-maintainer--42");
    let id = new_discovery_workorder_id().unwrap();
    assert!(id.starts_with("repo-maintainer-"));
    assert!(id["repo-maintainer-".len()..].chars().all(|c| c.is_ascii_digit()));
    assert!(!now_iso().unwrap().is_empty());
    let stamped =
        set_status_now(&row("wo-9", "queued", "2024-01-01"), WorkorderStatus::Queued).unwrap();
    assert_eq!(stamped.status, "queued");
    assert!(stamped.updated_at.ends_with("+00:00"));
}

#[test]
fn heartbeat_dispatch_rules() {
    assert_eq!(dispatch_step(0, 1, false, false, true), DispatchStep::Dispatch);
    assert_eq!(dispatch_step(1, 1, false, false, true), DispatchStep::Stop);
    assert_eq!(dispatch_step(0, 3, false, false, false), DispatchStep::Stop);
    assert_eq!(dispatch_step(0, 3, true, false, true), DispatchStep::Plan);
    assert_eq!(dispatch_step(1, 3, true, true, true), DispatchStep::Stop);
    assert_eq!(
        dispatch_summary(0, Some(LoopStatus::ActiveWorkorderExists)),
        DispatchSummary::Idle { reason: IdleReason::ActiveWorkorderExists }
    );
    assert_eq!(
        dispatch_summary(0, Some(LoopStatus::Planned)),
        DispatchSummary::Idle { reason: IdleReason::DryRunNoReadyWorkorders }
    );
    assert_eq!(
        dispatch_summary(0, Some(LoopStatus::ReadyForWorker)),
        DispatchSummary::Idle { reason: IdleReason::NoReadyWorkorders }
    );
    assert_eq!(dispatch_summary(2, None), DispatchSummary::Dispatched { count: 2 });
    assert_eq!(IdleReason::DryRunNoReadyWorkorders.as_str(), "dry_run_no_ready_workorders");
}

#[test]
fn workorder_creation_checks() {
    let payload = Json::Object(vec![("scope".to_string(), Json::Str("read_only".to_string()))]);
    let w = new_workorder(" wo-2 ", "repo_discovery", "Inspect target", &payload).unwrap();
    assert_eq!(w.id, "wo-2");
    assert_eq!(w.kind, "repo_discovery");
    assert_eq!(w.status, WorkorderStatus::Queued);
    match new_workorder("wo", " ", "t", &payload) {
        Err(Error::Required { name }) => assert_eq!(name, "workorder kind"),
        other => panic!("unexpected {:?}", other),
    }
    assert!(matches!(
        new_workorder("wo", "k", "t", &Json::Array(Vec::new())),
        Err(Error::WorkorderPayloadNotObject)
    ));
}

#[test]
fn approval_request_and_decision() {
    let req = new_approval("wo-2", None, " Need operator decision ").unwrap();
    assert_eq!(req.approval_id, "approval-wo-2");
    assert_eq!(req.reason, "Need operator decision");
    let named = new_approval("wo-2", Some(" approval-x "), "why").unwrap();
    assert_eq!(named.approval_id, "approval-x");
    match new_approval("wo-2", Some(" "), "why") {
        Err(Error::Required { name }) => assert_eq!(name, "approval id"),
        other => panic!("unexpected {:?}", other),
    }
    assert_eq!(approval_workorder_status(), WorkorderStatus::NeedsUser);
    let d = approval_decision(" approved ", "test", "ok").unwrap();
    assert!(d.approved);
    assert_eq!(d.decision_text(), "approved");
    assert_eq!(d.decided_by, "test");
    let r = approval_decision("rejected", "op", "no").unwrap();
    assert_eq!(r.decision_text(), "rejected");
    assert!(matches!(
        approval_decision("maybe", "op", "x"),
        Err(Error::ApprovalDecisionInvalid)
    ));
    match approval_decision("approved", "op", "  ") {
        Err(Error::Required { name }) => assert_eq!(name, "approval message"),
        other => panic!("unexpected {:?}", other),
    }
}

#[test]
fn runner_refresh_plans() {
    assert_eq!(
        plan_runner_refresh("handoff_ready", 1, None, "wo-1"),
        RefreshPlan::CompletedFromResult { update: true }
    );
    assert_eq!(
        plan_runner_refresh("completed_from_result", 2, None, "wo-1"),
        RefreshPlan::CompletedFromResult { update: false }
    );
    let file = Json::Object(vec![("workorder_id".to_string(), Json::Str("wo-1".to_string()))]);
    assert_eq!(
        plan_runner_refresh("handoff_ready", 0, Some(&file), "wo-1"),
        RefreshPlan::IngestResultFile
    );
    assert_eq!(
        plan_runner_refresh("handoff_ready", 0, Some(&file), "wo-2"),
        RefreshPlan::Unchanged
    );
    assert_eq!(plan_runner_refresh("handoff_ready", 0, None, "wo-1"), RefreshPlan::Unchanged);
}

#[test]
fn second_refresh_changes_nothing() {
    let file = Json::Object(vec![("workorder_id".to_string(), Json::Str("wo-1".to_string()))]);
    assert_eq!(
        plan_runner_refresh("handoff_ready", 0, Some(&file), "wo-1"),
        RefreshPlan::IngestResultFile
    );
    assert_eq!(
        plan_runner_refresh("completed_from_result", 1, Some(&file), "wo-1"),
        RefreshPlan::CompletedFromResult { update: false }
    );
}

#[test]
fn dry_run_upkeep_is_planned() {
    assert_eq!(heartbeat_upkeep(true), Upkeep::Planned);
    assert_eq!(heartbeat_upkeep(false), Upkeep::Run);
}

#[test]
fn discovery_workorder_fields() {
    let (w, payload) = discovery_workorder("repo-maintainer-5", Some("/a/pack.json"));
    assert_eq!(w.id, "repo-maintainer-5");
    assert_eq!(w.kind, "repo_discovery");
    assert_eq!(w.title, "Inspect target repository");
    assert_eq!(w.status, WorkorderStatus::Queued);
    assert_eq!(payload.get("created_by").and_then(|v| v.as_str()), Some("loop_run"));
    assert_eq!(payload.get("mode").and_then(|v| v.as_str()), Some("observe"));
    assert_eq!(payload.get("target_pack_path").and_then(|v| v.as_str()), Some("/a/pack.json"));
    let (_, no_pack) = discovery_workorder("x", None);
    assert!(matches!(no_pack.get("target_pack_path"), Some(Json::Null)));
}

#[test]
fn recorded_result_settles_workorder_row() {
    let payload = Json::Object(vec![
        ("workorder_id".to_string(), Json::Str("wo-1".to_string())),
        ("status".to_string(), Json::Str("fixed".to_string())),
        ("summary".to_string(), Json::Str("ok".to_string())),
        ("next_action".to_string(), Json::Str("no_action".to_string())),
    ]);
    let sub = prepare_result(&payload).unwrap();
    let created = settle_workorder(None, "demo", &sub, "{}", "2024-01-02T00:00:00+00:00");
    assert_eq!(created.id, "wo-1");
    assert_eq!(created.target_id, "demo");
    assert_eq!(created.kind, "external_result");
    assert_eq!(created.title, "Result for wo-1");
    assert_eq!(created.status, "completed");
    assert_eq!(created.created_at, "2024-01-02T00:00:00+00:00");
    let existing = row("wo-1", "handoff_ready", "2024-01-01T00:00:00+00:00");
    let kept = settle_workorder(Some(&existing), "demo", &sub, "{\"a\":1}", "2024-01-03T00:00:00+00:00");
    assert_eq!(kept.kind, existing.kind);
    assert_eq!(kept.title, existing.title);
    assert_eq!(kept.created_at, "2024-01-01T00:00:00+00:00");
    assert_eq!(kept.status, "completed");
    assert_eq!(kept.payload_json, "{\"a\":1}");
    assert_eq!(kept.updated_at, "2024-01-03T00:00:00+00:00");
}

#[test]
fn now_is_utc_rfc3339() {
    let now = now_iso().unwrap();
    assert!(now.len() >= 25);
    assert_eq!(
        Error::ClockUnavailable.message(),
        "system time is before the Unix epoch or beyond the supported dates"
    );
    assert!(now.ends_with("+00:00"));
}

#[test]
fn heartbeat_rounds_are_bounded() {
    let mut dispatched = 0;
    let mut round = 0;
    loop {
        match dispatch_step(round, 2, false, dispatched > 0, true) {
            DispatchStep::Stop => break,
            DispatchStep::Dispatch => dispatched += 1,
            DispatchStep::Plan => panic!("not a dry run"),
        }
        round += 1;
    }
    assert_eq!(dispatched, 2);
    assert_eq!(dispatch_step(0, 5, true, false, true), DispatchStep::Plan);
    assert_eq!(dispatch_step(1, 5, true, true, true), DispatchStep::Stop);
}
