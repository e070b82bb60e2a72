use codex_automation::error::Error;
use codex_automation::json::Json;
use codex_automation::results::{
    prepare_result, workorder_status_for_result, ResultStatus, WorkorderStatus, SCHEMA_VERSION,
};

fn obj(pairs: &[(&str, &str)]) -> Json {
    Json::Object(
        pairs
            .iter()
            .map(|(k, v)| (k.to_string(), Json::Str(v.to_string())))
            .collect(),
    )
}

#[test]
fn result_status_round_trip() {
    for text in [
        "approval_required",
        "blocked",
        "discovery_findings",
        "discovery_no_findings",
        "failed",
        "fixed",
        "needs_more_investigation",
        "runner_lost_before_result",
        "safe_fix_candidate",
        "staging_deploy_blocked",
        "staging_deployed",
        "stale_or_invalid",
        "tests_failed",
        "tests_passed",
    ] {
        let status = ResultStatus::parse(text).expect("known status");
        assert_eq!(status.as_str(), text);
    }
    assert_eq!(ResultStatus::parse("done"), None);
    assert_eq!(ResultStatus::parse("Fixed"), None);
}

#[test]
fn result_statuses_map_to_workorder_states() {
    assert_eq!(workorder_status_for_result(ResultStatus::Fixed), WorkorderStatus::Completed);
    assert_eq!(workorder_status_for_result(ResultStatus::TestsPassed), WorkorderStatus::Completed);
    assert_eq!(
        workorder_status_for_result(ResultStatus::DiscoveryNoFindings),
        WorkorderStatus::Completed
    );
    assert_eq!(
        workorder_status_for_result(ResultStatus::StagingDeployed),
        WorkorderStatus::Completed
    );
    assert_eq!(
        workorder_status_for_result(ResultStatus::ApprovalRequired),
        WorkorderStatus::NeedsUser
    );
    assert_eq!(
        workorder_status_for_result(ResultStatus::SafeFixCandidate),
        WorkorderStatus::NeedsUser
    );
    assert_eq!(workorder_status_for_result(ResultStatus::Blocked), WorkorderStatus::Failed);
    assert_eq!(workorder_status_for_result(ResultStatus::Failed), WorkorderStatus::Failed);
    assert_eq!(
        workorder_status_for_result(ResultStatus::StaleOrInvalid),
        WorkorderStatus::Failed
    );
    assert_eq!(
        workorder_status_for_result(ResultStatus::StagingDeployBlocked),
        WorkorderStatus::Failed
    );
    assert_eq!(
        workorder_status_for_result(ResultStatus::TestsFailed),
        WorkorderStatus::ResultSubmitted
    );
    assert_eq!(
        workorder_status_for_result(ResultStatus::RunnerLostBeforeResult),
        WorkorderStatus::ResultSubmitted
    );
    assert_eq!(WorkorderStatus::NeedsUser.as_str(), "needs_user");
    assert_eq!(WorkorderStatus::ResultSubmitted.as_str(), "result_submitted");
    assert_eq!(SCHEMA_VERSION, 3);
}

#[test]
fn prepare_result_accepts_complete_payload() {
    let payload = obj(&[
        ("workorder_id", " wo-1 "),
        ("status", "fixed"),
        ("summary", "ok"),
        ("next_action", "no_action"),
    ]);
    let sub = prepare_result(&payload).expect("valid result");
    assert_eq!(sub.workorder_id, "wo-1");
    assert_eq!(sub.status, ResultStatus::Fixed);
    assert_eq!(sub.summary, "ok");
    assert_eq!(sub.next_action, "no_action");
    assert_eq!(sub.workorder_status, WorkorderStatus::Completed);
    assert_eq!(sub.workorder_title, "Result for wo-1");
}

#[test]
fn prepare_result_reports_first_missing_field() {
    let payload = obj(&[("workorder_id", "wo-1"), ("summary", "ok")]);
    match prepare_result(&payload) {
        Err(Error::ResultFieldRequired { key }) => assert_eq!(key, "status"),
        other => panic!("unexpected {:?}", other),
    }
    let blank = obj(&[("workorder_id", "   ")]);
    match prepare_result(&blank) {
        Err(Error::ResultFieldRequired { key }) => assert_eq!(key, "workorder_id"),
        other => panic!("unexpected {:?}", other),
    }
    let not_text = Json::Object(vec![
        ("workorder_id".to_string(), Json::Int(7)),
        ("status".to_string(), Json::Str("fixed".to_string())),
    ]);
    assert!(matches!(
        prepare_result(&not_text),
        Err(Error::ResultFieldRequired { .. })
    ));
    assert!(matches!(
        prepare_result(&Json::Null),
        Err(Error::ResultFieldRequired { .. })
    ));
}

#[test]
fn prepare_result_rejects_unknown_status() {
    let payload = obj(&[
        ("workorder_id", "wo-1"),
        ("status", "done"),
        ("summary", "ok"),
        ("next_action", "no_action"),
    ]);
    match prepare_result(&payload) {
        Err(Error::UnsupportedResultStatus { status }) => assert_eq!(status, "done"),
        other => panic!("unexpected {:?}", other),
    }
}
