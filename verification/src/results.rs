//! Result statuses, workorder statuses, and how a submitted result turns
//! into durable rows.
use vstd::prelude::*;
use crate::error::Error;
use crate::json::{nonblank_field, Json};
use crate::text::{cat, owned, str_eq};

verus! {

broadcast use vstd::string::group_string_axioms;

/// The version of the database schema that this library writes.
pub const SCHEMA_VERSION: i64 = 3;

/// The statuses a worker may report for a workorder.
#[derive(Debug, Clone, Copy, PartialEq, Eq, Structural)]
pub enum ResultStatus {
    ApprovalRequired,
    Blocked,
    DiscoveryFindings,
    DiscoveryNoFindings,
    Failed,
    Fixed,
    NeedsMoreInvestigation,
    RunnerLostBeforeResult,
    SafeFixCandidate,
    StagingDeployBlocked,
    StagingDeployed,
    StaleOrInvalid,
    TestsFailed,
    TestsPassed,
}

/// The text of a result status.
pub open spec fn result_status_text(s: ResultStatus) -> Seq<char> {
    match s {
        ResultStatus::ApprovalRequired => "approval_required"@,
        ResultStatus::Blocked => "blocked"@,
        ResultStatus::DiscoveryFindings => "discovery_findings"@,
        ResultStatus::DiscoveryNoFindings => "discovery_no_findings"@,
        ResultStatus::Failed => "failed"@,
        ResultStatus::Fixed => "fixed"@,
        ResultStatus::NeedsMoreInvestigation => "needs_more_investigation"@,
        ResultStatus::RunnerLostBeforeResult => "runner_lost_before_result"@,
        ResultStatus::SafeFixCandidate => "safe_fix_candidate"@,
        ResultStatus::StagingDeployBlocked => "staging_deploy_blocked"@,
        ResultStatus::StagingDeployed => "staging_deployed"@,
        ResultStatus::StaleOrInvalid => "stale_or_invalid"@,
        ResultStatus::TestsFailed => "tests_failed"@,
        ResultStatus::TestsPassed => "tests_passed"@,
    }
}

/// Whether `s` is the text of some result status.
pub open spec fn is_result_status_text(s: Seq<char>) -> bool {
    exists|st: ResultStatus| result_status_text(st) == s
}

impl ResultStatus {
    /// The text of this status.
    pub fn as_str(&self) -> (r: &'static str)
        ensures
            r@ == result_status_text(*self),
    {
        match self {
            ResultStatus::ApprovalRequired => "approval_required",
            ResultStatus::Blocked => "blocked",
            ResultStatus::DiscoveryFindings => "discovery_findings",
            ResultStatus::DiscoveryNoFindings => "discovery_no_findings",
            ResultStatus::Failed => "failed",
            ResultStatus::Fixed => "fixed",
            ResultStatus::NeedsMoreInvestigation => "needs_more_investigation",
            ResultStatus::RunnerLostBeforeResult => "runner_lost_before_result",
            ResultStatus::SafeFixCandidate => "safe_fix_candidate",
            ResultStatus::StagingDeployBlocked => "staging_deploy_blocked",
            ResultStatus::StagingDeployed => "staging_deployed",
            ResultStatus::StaleOrInvalid => "stale_or_invalid",
            ResultStatus::TestsFailed => "tests_failed",
            ResultStatus::TestsPassed => "tests_passed",
        }
    }

    /// The status whose text is `s`, if any.
    pub fn parse(s: &str) -> (r: Option<ResultStatus>)
        ensures
            match r {
                Some(st) => result_status_text(st) == s@,
                None => !is_result_status_text(s@),
            },
    {
        if str_eq(s, ResultStatus::ApprovalRequired.as_str()) {
            return Some(ResultStatus::ApprovalRequired);
        }
        if str_eq(s, ResultStatus::Blocked.as_str()) {
            return Some(ResultStatus::Blocked);
        }
        if str_eq(s, ResultStatus::DiscoveryFindings.as_str()) {
            return Some(ResultStatus::DiscoveryFindings);
        }
        if str_eq(s, ResultStatus::DiscoveryNoFindings.as_str()) {
            return Some(ResultStatus::DiscoveryNoFindings);
        }
        if str_eq(s, ResultStatus::Failed.as_str()) {
            return Some(ResultStatus::Failed);
        }
        if str_eq(s, ResultStatus::Fixed.as_str()) {
            return Some(ResultStatus::Fixed);
        }
        if str_eq(s, ResultStatus::NeedsMoreInvestigation.as_str()) {
            return Some(ResultStatus::NeedsMoreInvestigation);
        }
        if str_eq(s, ResultStatus::RunnerLostBeforeResult.as_str()) {
            return Some(ResultStatus::RunnerLostBeforeResult);
        }
        if str_eq(s, ResultStatus::SafeFixCandidate.as_str()) {
            return Some(ResultStatus::SafeFixCandidate);
        }
        if str_eq(s, ResultStatus::StagingDeployBlocked.as_str()) {
            return Some(ResultStatus::StagingDeployBlocked);
        }
        if str_eq(s, ResultStatus::StagingDeployed.as_str()) {
            return Some(ResultStatus::StagingDeployed);
        }
        if str_eq(s, ResultStatus::StaleOrInvalid.as_str()) {
            return Some(ResultStatus::StaleOrInvalid);
        }
        if str_eq(s, ResultStatus::TestsFailed.as_str()) {
            return Some(ResultStatus::TestsFailed);
        }
        if str_eq(s, ResultStatus::TestsPassed.as_str()) {
            return Some(ResultStatus::TestsPassed);
        }
        assert forall|st: ResultStatus| result_status_text(st) != s@ by {
            match st {
                ResultStatus::ApprovalRequired => {},
                ResultStatus::Blocked => {},
                ResultStatus::DiscoveryFindings => {},
                ResultStatus::DiscoveryNoFindings => {},
                ResultStatus::Failed => {},
                ResultStatus::Fixed => {},
                ResultStatus::NeedsMoreInvestigation => {},
                ResultStatus::RunnerLostBeforeResult => {},
                ResultStatus::SafeFixCandidate => {},
                ResultStatus::StagingDeployBlocked => {},
                ResultStatus::StagingDeployed => {},
                ResultStatus::StaleOrInvalid => {},
                ResultStatus::TestsFailed => {},
                ResultStatus::TestsPassed => {},
            }
        }
        None
    }
}

/// The states a workorder moves through.
#[derive(Debug, Clone, Copy, PartialEq, Eq, Structural)]
pub enum WorkorderStatus {
    Queued,
    ReadyForWorker,
    HandoffReady,
    NeedsUser,
    Completed,
    Failed,
    ResultSubmitted,
}

/// The text of a workorder status.
pub open spec fn workorder_status_text(s: WorkorderStatus) -> Seq<char> {
    match s {
        WorkorderStatus::Queued => "queued"@,
        WorkorderStatus::ReadyForWorker => "ready_for_worker"@,
        WorkorderStatus::HandoffReady => "handoff_ready"@,
        WorkorderStatus::NeedsUser => "needs_user"@,
        WorkorderStatus::Completed => "completed"@,
        WorkorderStatus::Failed => "failed"@,
        WorkorderStatus::ResultSubmitted => "result_submitted"@,
    }
}

impl WorkorderStatus {
    /// The text of this status.
    pub fn as_str(&self) -> (r: &'static str)
        ensures
            r@ == workorder_status_text(*self),
    {
        match self {
            WorkorderStatus::Queued => "queued",
            WorkorderStatus::ReadyForWorker => "ready_for_worker",
            WorkorderStatus::HandoffReady => "handoff_ready",
            WorkorderStatus::NeedsUser => "needs_user",
            WorkorderStatus::Completed => "completed",
            WorkorderStatus::Failed => "failed",
            WorkorderStatus::ResultSubmitted => "result_submitted",
        }
    }
}

/// The workorder state a result leaves behind: successful results complete
/// the workorder, results that need human judgment hand it to the user,
/// failed or blocked results fail it, and the rest keep it submitted.
pub open spec fn workorder_status_for(s: ResultStatus) -> WorkorderStatus {
    match s {
        ResultStatus::DiscoveryNoFindings | ResultStatus::Fixed | ResultStatus::StagingDeployed
        | ResultStatus::TestsPassed => WorkorderStatus::Completed,
        ResultStatus::ApprovalRequired | ResultStatus::SafeFixCandidate => WorkorderStatus::NeedsUser,
        ResultStatus::Failed | ResultStatus::Blocked | ResultStatus::StaleOrInvalid
        | ResultStatus::StagingDeployBlocked => WorkorderStatus::Failed,
        _ => WorkorderStatus::ResultSubmitted,
    }
}

/// The workorder state that a result with status `status` leaves behind.
pub fn workorder_status_for_result(status: ResultStatus) -> (r: WorkorderStatus)
    ensures
        r == workorder_status_for(status),
{
    match status {
        ResultStatus::DiscoveryNoFindings | ResultStatus::Fixed | ResultStatus::StagingDeployed
        | ResultStatus::TestsPassed => WorkorderStatus::Completed,
        ResultStatus::ApprovalRequired | ResultStatus::SafeFixCandidate => WorkorderStatus::NeedsUser,
        ResultStatus::Failed | ResultStatus::Blocked | ResultStatus::StaleOrInvalid
        | ResultStatus::StagingDeployBlocked => WorkorderStatus::Failed,
        _ => WorkorderStatus::ResultSubmitted,
    }
}

/// A result never leaves its workorder queued, ready or waiting for a
/// handoff: every result status settles the workorder as completed,
/// needing the user, failed or submitted.
pub proof fn law_result_settles_workorder(s: ResultStatus)
    ensures
        workorder_status_for(s) == WorkorderStatus::Completed || workorder_status_for(s)
            == WorkorderStatus::NeedsUser || workorder_status_for(s) == WorkorderStatus::Failed
            || workorder_status_for(s) == WorkorderStatus::ResultSubmitted,
        (s == ResultStatus::ApprovalRequired || s == ResultStatus::SafeFixCandidate)
            ==> workorder_status_for(s) == WorkorderStatus::NeedsUser,
{
}

/// Which workorder state each result leaves: exactly the results
/// `discovery_no_findings`, `fixed`, `staging_deployed` and `tests_passed`
/// complete the workorder; `approval_required` and `safe_fix_candidate`
/// hand it to the user; `failed`, `blocked`, `stale_or_invalid` and
/// `staging_deploy_blocked` fail it; every other result
/// (`discovery_findings`, `needs_more_investigation`, `tests_failed`,
/// `runner_lost_before_result`) leaves it `result_submitted`.
pub proof fn law_result_workorder_states(s: ResultStatus)
    ensures
        workorder_status_for(s) == WorkorderStatus::Completed <==> (s
            == ResultStatus::DiscoveryNoFindings || s == ResultStatus::Fixed || s
            == ResultStatus::StagingDeployed || s == ResultStatus::TestsPassed),
        workorder_status_for(s) == WorkorderStatus::NeedsUser <==> (s
            == ResultStatus::ApprovalRequired || s == ResultStatus::SafeFixCandidate),
        workorder_status_for(s) == WorkorderStatus::Failed <==> (s == ResultStatus::Failed || s
            == ResultStatus::Blocked || s == ResultStatus::StaleOrInvalid || s
            == ResultStatus::StagingDeployBlocked),
        workorder_status_for(s) == WorkorderStatus::ResultSubmitted <==> (s
            == ResultStatus::DiscoveryFindings || s == ResultStatus::NeedsMoreInvestigation || s
            == ResultStatus::TestsFailed || s == ResultStatus::RunnerLostBeforeResult),
{
}

/// A validated result, ready to be recorded.
#[derive(Debug)]
pub struct ResultSubmission {
    pub workorder_id: String,
    pub status: ResultStatus,
    pub summary: String,
    pub next_action: String,
    pub workorder_status: WorkorderStatus,
    /// The title a workorder gets when the result creates it.
    pub workorder_title: String,
}

/// The result fields a payload must carry, in the order they are checked.
pub open spec fn result_key(i: int) -> Seq<char> {
    if i == 0 {
        "workorder_id"@
    } else if i == 1 {
        "status"@
    } else if i == 2 {
        "summary"@
    } else {
        "next_action"@
    }
}

/// Whether `payload` carries every result field as non-blank text.
pub open spec fn has_result_fields(payload: Json) -> bool {
    forall|i: int| 0 <= i < 4 ==> #[trigger] nonblank_field(payload, result_key(i)) is Some
}

/// The first result field that `payload` lacks.
pub open spec fn first_missing_result_field(payload: Json) -> int {
    if nonblank_field(payload, result_key(0)) is None {
        0
    } else if nonblank_field(payload, result_key(1)) is None {
        1
    } else if nonblank_field(payload, result_key(2)) is None {
        2
    } else {
        3
    }
}

/// Validates a result payload: `workorder_id`, `status`, `summary` and
/// `next_action` must be non-blank strings (checked in that order, each
/// trimmed), and the status must be a known result status.
pub fn prepare_result(payload: &Json) -> (r: Result<ResultSubmission, Error>)
    ensures
        r is Ok <==> has_result_fields(*payload) && is_result_status_text(
            nonblank_field(*payload, "status"@)->0,
        ),
        r matches Ok(sub) ==> {
            &&& nonblank_field(*payload, "workorder_id"@) == Some(sub.workorder_id@)
            &&& result_status_text(sub.status) == nonblank_field(*payload, "status"@)->0
            &&& nonblank_field(*payload, "summary"@) == Some(sub.summary@)
            &&& nonblank_field(*payload, "next_action"@) == Some(sub.next_action@)
            &&& sub.workorder_status == workorder_status_for(sub.status)
            &&& sub.workorder_title@ == "Result for "@ + sub.workorder_id@
        },
        r matches Err(e) ==> if !has_result_fields(*payload) {
            e matches Error::ResultFieldRequired { key } && key@ == result_key(
                first_missing_result_field(*payload),
            )
        } else {
            e matches Error::UnsupportedResultStatus { status } && status@ == nonblank_field(
                *payload,
                "status"@,
            )->0
        },
{
    proof {
        reveal_strlit("workorder_id");
        reveal_strlit("status");
        reveal_strlit("summary");
        reveal_strlit("next_action");
    }
    let workorder_id = match payload.nonblank_field("workorder_id") {
        Some(v) => v,
        None => {
            assert(nonblank_field(*payload, result_key(0)) is None);
            return Err(Error::ResultFieldRequired { key: owned("workorder_id") });
        },
    };
    let status_text = match payload.nonblank_field("status") {
        Some(v) => v,
        None => {
            assert(nonblank_field(*payload, result_key(1)) is None);
            return Err(Error::ResultFieldRequired { key: owned("status") });
        },
    };
    let summary = match payload.nonblank_field("summary") {
        Some(v) => v,
        None => {
            assert(nonblank_field(*payload, result_key(2)) is None);
            return Err(Error::ResultFieldRequired { key: owned("summary") });
        },
    };
    let next_action = match payload.nonblank_field("next_action") {
        Some(v) => v,
        None => {
            assert(nonblank_field(*payload, result_key(3)) is None);
            return Err(Error::ResultFieldRequired { key: owned("next_action") });
        },
    };
    assert(has_result_fields(*payload)) by {
        assert forall|i: int| 0 <= i < 4 implies #[trigger] nonblank_field(
            *payload,
            result_key(i),
        ) is Some by {
            if i == 0 {
            } else if i == 1 {
            } else if i == 2 {
            } else {
            }
        }
    }
    let status = match ResultStatus::parse(status_text.as_str()) {
        Some(s) => s,
        None => {
            return Err(Error::UnsupportedResultStatus { status: status_text });
        },
    };
    let workorder_status = workorder_status_for_result(status);
    let workorder_title = cat("Result for ", workorder_id.as_str());
    Ok(ResultSubmission { workorder_id, status, summary, next_action, workorder_status, workorder_title })
}

} // verus!
